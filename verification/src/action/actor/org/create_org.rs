use vstd::prelude::*;

use crate::ability::kind_of;
use crate::action::actor::org::create_and_give_org_ability::{org_ability_created, CreateAndGiveOrgAbility};
use crate::action::create_and_give_passive::CreateAndGivePassive;
use crate::action::give_passive::passive_moved;
use crate::action::{CommandPacket, ActionActor, ActionContext, ActionError, ActionResponse, ActionResult};
use crate::actor::{copy_roles, Actor, ActorType, LeadershipStruct, OrgAbility, Organization};
use crate::common::{ID, Version};
use crate::config::{OrgConfig, OrganizationName};
use crate::engine::{id_inserted, Engine, Touched};
use crate::ownership::OwnershipStruct;
use crate::passive::{Passive, PassiveType};
use crate::seqmap::{lemma_lookup_push, lemma_lookup_without_key, lookup};

verus! {

#[derive(PartialEq, Eq, Structural, Clone, Debug)]
pub struct CreateOrgResponse {
    pub id: ID,
}

/// System action: create an organization as its config describes it: with a leadership
/// structure (and no leader) if the config has one, an ability for each configured
/// ability with its settings, and a volatile passive for each configured passive.  A dry
/// run answers with id 0.
#[derive(PartialEq, Eq, Structural, Clone, Debug)]
pub struct CreateOrg {
    pub name: OrganizationName,
}

/// The leadership structure a new organization gets from its config.
pub open spec fn initial_leadership(c: OrgConfig) -> Option<LeadershipStruct> {
    match c.leadership {
        Some(l) => Some(LeadershipStruct { leader: None, transfer_policies: l.transfer_policies }),
        None => None,
    }
}

impl CreateOrg {
    pub open spec fn org_config(&self, e: Engine) -> OrgConfig {
        e.config.org_spec(self.name)->0
    }

    /// The organization is configured, and the configs of its abilities name no pools (an
    /// organization has none; the engine crashes otherwise).
    pub open spec fn configured(&self, e: Engine) -> bool {
        &&& e.config.org_spec(self.name) is Some
        &&& forall|i: int| 0 <= i < self.org_config(e).abilities@.len() ==> match e.config.ability_spec(
            (#[trigger] self.org_config(e).abilities@[i]).identifier,
        ) {
            Some(c) => c.default_links@.len() == 0,
            None => true,
        }
    }

    /// Whether some configured ability of the organization has no config of its own.
    pub open spec fn ability_unconfigured(&self, e: Engine) -> bool {
        exists|i: int| 0 <= i < self.org_config(e).abilities@.len()
            && e.config.ability_spec((#[trigger] self.org_config(e).abilities@[i]).identifier) is None
    }

    /// What a creation does: the organization `id`, its abilities (under the ability keys
    /// from `a0` on) and its passives (under the passive keys from `p0` on).
    pub open spec fn created(&self, e0: Engine, e1: Engine) -> bool {
        let c = self.org_config(e0);
        let id = e0.world.actors.next_key() as ID;
        let a0 = e0.world.abilities.next_key();
        let p0 = e0.world.passives.next_key();
        let na = c.abilities@.len();
        let np = c.passives@.len();
        let o = e1.world.org(id);
        &&& id == e0.world.actors.next_key()
        &&& e1.world.actors@.dom() == e0.world.actors@.dom().insert(id)
        &&& !e0.world.actors@.contains_key(id)
        &&& forall|k: ID| #[trigger] e0.world.actors@.contains_key(k) ==> e1.world.actors@[k] == e0.world.actors@[k]
        &&& e1.world.is_org(id)
        &&& o.name == self.name
        &&& o.leadership_struct == initial_leadership(c)
        &&& o.members@.len() == 0
        &&& e1.world.actors@[id].abilities@ == Seq::new(na, |i: int| (a0 + i) as ID)
        &&& e1.world.actors@[id].passives@ == Seq::new(np, |j: int| (p0 + j) as ID)
        &&& e1.world.abilities@.dom() == e0.world.abilities@.dom().union(Set::new(|k: ID| a0 <= k < a0 + na))
        &&& forall|k: ID| #[trigger] e0.world.abilities@.contains_key(k) ==> e1.world.abilities@[k] == e0.world.abilities@[k]
        &&& forall|i: int| 0 <= i < na ==> {
            let a = #[trigger] e1.world.abilities@[(a0 + i) as ID];
            &&& a.ownership_struct.owner == Some(id)
            &&& kind_of(a) == c.abilities@[i].identifier
            &&& lookup(o.abilities@, (a0 + i) as ID) matches Some(s)
                && s.require_roles@ == c.abilities@[i].require_roles@
                && s.require_members == c.abilities@[i].require_members
                && s.usage_policies == c.abilities@[i].usage_policies
        }
        &&& e1.world.passives@ == e0.world.passives@.union_prefer_right(Map::new(
            |k: ID| p0 <= k < p0 + np,
            |k: ID| Passive {
                ownership_struct: OwnershipStruct { owner: Some(id), transferrable: false, volatile: true },
                passive_type: c.passives@[k - p0],
            },
        ))
    }

    /// What the handler does besides answering: its effect on the engine (from `e0` to
    /// `e1`) and on the commands (from `c0` to `c1`), given its answer `r`.
    pub open spec fn effect(
        &self,
        e0: Engine,
        e1: Engine,
        c0: Seq<CommandPacket>,
        c1: Seq<CommandPacket>,
        actor: ActionActor,
        mutate: bool,
        r: ActionResult,
    ) -> bool {
        &&& (e1.wf())
        &&& (c1 =~= c0)
        &&& (e1.only_touches(e0, Touched { actors: true, abilities: true, charge_pools: true, passives: true, ..Touched::nothing() }))
        &&& (!mutate || !(actor is System) ==> e1.unchanged(e0))
        &&& (mutate && r is Ok ==> self.created(e0, e1))
    }

    /// The answer to a request from `actor`, from the engine before (`e0`) and after (`e1`)
    /// the handler runs.
    pub open spec fn answer(&self, e0: Engine, e1: Engine, actor: ActionActor, mutate: bool) -> ActionResult {
        if !(actor is System) {
            Err::<ActionResponse, ActionError>(ActionError::RequiresSystem)
        } else if !mutate {
            Ok(ActionResponse::CreateOrg(CreateOrgResponse { id: 0 }))
        } else if self.ability_unconfigured(e0) {
            Err(ActionError::AbilityConfigNotFound)
        } else {
            Ok(ActionResponse::CreateOrg(CreateOrgResponse { id: e0.world.actors.next_key() as ID }))
        }
    }

    #[verifier::loop_isolation(false)]
    #[verifier::rlimit(40)]
    pub fn handle(
        &mut self,
        eng: &mut Engine,
        ctx: &mut ActionContext,
        actor: &ActionActor,
        version: Version,
        mutate: bool,
    ) -> (r: ActionResult)
        requires
            old(eng).wf(),
            old(self).configured(*old(eng)),
        ensures
            final(eng).wf(),
            *final(self) == *old(self),
            final(ctx).commands@ == old(ctx).commands@,
            final(eng).only_touches(*old(eng), Touched { actors: true, abilities: true, charge_pools: true, passives: true, ..Touched::nothing() }),
            !mutate || !(*actor is System) ==> final(eng).unchanged(*old(eng)),
            r == old(self).answer(*old(eng), *final(eng), *actor, mutate),
            mutate && r is Ok ==> old(self).created(*old(eng), *final(eng)),
            old(self).effect(*old(eng), *final(eng), old(ctx).commands@, final(ctx).commands@, *actor, mutate, r),
    {
        actor.require_system()?;
        if !mutate {
            return Ok(ActionResponse::CreateOrg(CreateOrgResponse { id: 0 }));
        }
        let ghost e0 = *eng;
        let ghost c = self.org_config(e0);
        let ghost a0 = e0.world.abilities.next_key();
        let ghost p0 = e0.world.passives.next_key();
        let org_config: &OrgConfig = eng.config.org(self.name).unwrap();
        let leadership: Option<LeadershipStruct> = match &org_config.leadership {
            Some(l) => Some(LeadershipStruct { leader: None, transfer_policies: l.transfer_policies }),
            None => None,
        };
        let na: usize = org_config.abilities.len();
        let np: usize = org_config.passives.len();
        let id: ID = eng.world.actors.add(Actor::new(ActorType::Organization(Organization::new(self.name, leadership))));
        let ghost e1 = *eng;
        proof {
            e0.world.abilities.lemma_next_key_bounded();
            e0.world.passives.lemma_next_key_bounded();
            assert(eng.world.actors@[id].abilities@ =~= Seq::new(0, |i: int| (a0 + i) as ID));
            assert(eng.world.abilities@.dom() =~= e0.world.abilities@.dom().union(Set::new(|k: ID| a0 <= k < a0 + 0)));
        }

        let mut i: usize = 0;
        while i < na
            invariant
                i <= na,
                ctx.commands@ == old(ctx).commands@,
                na == c.abilities@.len(),
                np == c.passives@.len(),
                eng.config == e0.config,
                eng.wf(),
                eng.only_touches(e0, Touched { actors: true, abilities: true, charge_pools: true, ..Touched::nothing() }),
                eng.world.abilities.next_key() == a0 + i,
                eng.world.actors.next_key() == e0.world.actors.next_key() + 1,
                eng.world.actors@.dom() == e0.world.actors@.dom().insert(id),
                forall|k: ID| #[trigger] e0.world.actors@.contains_key(k) ==> eng.world.actors@[k] == e0.world.actors@[k],
                eng.world.is_org(id),
                eng.world.org(id).name == self.name,
                eng.world.org(id).leadership_struct == initial_leadership(c),
                eng.world.org(id).members@.len() == 0,
                eng.world.actors@[id].pool_map@.len() == 0,
                eng.world.actors@[id].passives@.len() == 0,
                eng.world.actors@[id].abilities@ == Seq::new(i as nat, |k: int| (a0 + k) as ID),
                eng.world.abilities@.dom() == e0.world.abilities@.dom().union(Set::new(|k: ID| a0 <= k < a0 + i)),
                forall|k: ID| #[trigger] e0.world.abilities@.contains_key(k) ==> eng.world.abilities@[k] == e0.world.abilities@[k],
                forall|j: int| 0 <= j < i ==> {
                    let a = #[trigger] eng.world.abilities@[(a0 + j) as ID];
                    &&& a.ownership_struct.owner == Some(id)
                    &&& kind_of(a) == c.abilities@[j].identifier
                    &&& lookup(eng.world.org(id).abilities@, (a0 + j) as ID) matches Some(s)
                        && s.require_roles@ == c.abilities@[j].require_roles@
                        && s.require_members == c.abilities@[j].require_members
                        && s.usage_policies == c.abilities@[j].usage_policies
                },
                a0 >= 0 && p0 >= 0,
                forall|j: int| 0 <= j < i ==> e0.config.ability_spec((#[trigger] c.abilities@[j]).identifier) is Some,
            decreases na - i,
        {
            let cfg = &eng.config.org(self.name).unwrap().abilities[i];
            let settings = OrgAbility {
                require_roles: copy_roles(&cfg.require_roles),
                require_members: cfg.require_members,
                usage_policies: cfg.usage_policies,
            };
            let mut give = CreateAndGiveOrgAbility {
                ability_name: cfg.identifier.name,
                variant: cfg.identifier.variant,
                org_id: id,
                settings,
            };
            let ghost before = *eng;
            proof {
                before.world.abilities.lemma_next_key_bounded();
            }
            let res = give.handle(eng, ctx, actor, version, mutate);
            if res.is_err() {
                proof {
                    assert(c.abilities@[i as int] == c.abilities@[i as int]);
                    assert(self.ability_unconfigured(e0));
                }
                return Err(ActionError::AbilityConfigNotFound);
            }
            proof {
                let ab = (a0 + i) as ID;
                assert(org_ability_created(before, *eng, id, give.kind(), give.settings));
                assert(a0 + i <= u64::MAX);
                let l0 = before.world.org(id).abilities@;
                let l1 = eng.world.org(id).abilities@;
                assert forall|j: int| 0 <= j < i implies #[trigger] lookup(l1, (a0 + j) as ID) == lookup(l0, (a0 + j) as ID) by {
                    lemma_lookup_push(l1.drop_last(), l1.last(), (a0 + j) as ID);
                    lemma_lookup_without_key(l0, ab, (a0 + j) as ID);
                    assert(l1.drop_last().push(l1.last()) =~= l1);
                }
                lemma_lookup_push(l1.drop_last(), l1.last(), ab);
                assert(l1.drop_last().push(l1.last()) =~= l1);
                let lst = before.world.actors@[id].abilities@;
                assert(a0 + i <= u64::MAX);
                assert forall|k: int| 0 <= k < lst.len() implies lst[k] != ab by {
                    assert(lst[k] == (a0 + k) as ID);
                }
                assert forall|k: ID| #[trigger] e0.world.actors@.contains_key(k) implies eng.world.actors@[k] == e0.world.actors@[k] by {
                    assert(k != id);
                    assert(eng.world.actors@.contains_key(k));
                }
                assert(eng.world.actors@[id].abilities@ =~= Seq::new((i + 1) as nat, |k: int| (a0 + k) as ID));
                assert(eng.world.abilities@.dom() =~= e0.world.abilities@.dom().union(Set::new(|k: ID| a0 <= k < a0 + i + 1)));
            }
            i = i + 1;
        }
        proof {
            assert(!self.ability_unconfigured(e0));
        }
        let ghost e2 = *eng;

        let mut j: usize = 0;
        while j < np
            invariant
                j <= np,
                ctx.commands@ == old(ctx).commands@,
                np == c.passives@.len(),
                p0 >= 0,
                eng.config == e0.config,
                eng.wf(),
                eng.only_touches(e2, Touched { actors: true, passives: true, ..Touched::nothing() }),
                eng.world.passives.next_key() == p0 + j,
                eng.world.actors@.dom() == e2.world.actors@.dom(),
                forall|k: ID| k != id && #[trigger] eng.world.actors@.contains_key(k) ==> eng.world.actors@[k] == e2.world.actors@[k],
                eng.world.actors@[id] == (Actor { passives: eng.world.actors@[id].passives, ..e2.world.actors@[id] }),
                eng.world.actors@[id].passives@ == Seq::new(j as nat, |k: int| (p0 + k) as ID),
                eng.world.passives@ == e0.world.passives@.union_prefer_right(Map::new(
                    |k: ID| p0 <= k < p0 + j,
                    |k: ID| Passive {
                        ownership_struct: OwnershipStruct { owner: Some(id), transferrable: false, volatile: true },
                        passive_type: c.passives@[k - p0],
                    },
                )),
            decreases np - j,
        {
            let passive_type: PassiveType = eng.config.org(self.name).unwrap().passives[j];
            let mut give = CreateAndGivePassive { actor_id: id, passive_type, transferrable: false, volatile: true };
            let ghost before = *eng;
            proof {
                before.world.passives.lemma_next_key_bounded();
            }
            let res = give.handle(eng, ctx, actor, version, mutate);
            proof {
                let pid = (p0 + j) as ID;
                let lst = before.world.actors@[id].passives@;
                assert(p0 + j <= u64::MAX);
                assert forall|k: int| 0 <= k < lst.len() implies lst[k] != pid by {
                    assert(lst[k] == (p0 + k) as ID);
                }
                assert(eng.world.actors@[id].passives@ =~= Seq::new((j + 1) as nat, |k: int| (p0 + k) as ID));
                assert(eng.world.passives@ =~= e0.world.passives@.union_prefer_right(Map::new(
                    |k: ID| p0 <= k < p0 + j + 1,
                    |k: ID| Passive {
                        ownership_struct: OwnershipStruct { owner: Some(id), transferrable: false, volatile: true },
                        passive_type: c.passives@[k - p0],
                    },
                )));
            }
            j = j + 1;
        }
        proof {
            let e3 = *eng;
            assert(e3.world.abilities@ == e2.world.abilities@);
            assert(e3.world.org(id) == e2.world.org(id));
            assert(e3.world.actors@[id].abilities@ == e2.world.actors@[id].abilities@);
            assert forall|k: ID| #[trigger] e0.world.actors@.contains_key(k) implies e3.world.actors@[k] == e0.world.actors@[k] by {
                assert(k != id);
                assert(e3.world.actors@.contains_key(k));
            }
            assert(e3.world.actors@.dom() == e0.world.actors@.dom().insert(id));
        }
        Ok(ActionResponse::CreateOrg(CreateOrgResponse { id }))
    }
}

} // verus!
