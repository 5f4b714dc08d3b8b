use vstd::prelude::*;

use crate::ability::kind_of;
use crate::action::ability::create_and_give_ability::CreateAndGiveAbility;
use crate::action::ability::give_ability::{config_pool_links, has_config_pools, lemma_link_all_dom, link_all};
use crate::action::actor::purge_volatiles::{
    holdings_exist, purged_ability, purged_notebook, purged_passive, PurgeVolatiles,
};
use crate::action::comms::lounge::create_lounge::player_refusal;
use crate::action::create_actor_links::{lemma_links_of_stable, links_added, links_of, CreateActorLinks};
use crate::action::create_and_give_notebook::CreateAndGiveNotebook;
use crate::action::create_and_give_passive::CreateAndGivePassive;
use crate::action::{CommandPacket, ActionActor, ActionContext, ActionError, ActionResponse, ActionResult};
use crate::actor::{Actor, ActorLink};
use crate::common::{ID, Version};
use crate::config::{Role, RoleAbility, RoleConfig, RoleNotebook, RolePassive};
use crate::engine::{lemma_player_replaced, lemma_same_actor_types, same_actor_types, Engine, Touched};
use crate::helpers::{get_player, get_role_config};
use crate::idset::lemma_push_contains;
use crate::notebook::Notebook;
use crate::ownership::OwnershipStruct;
use crate::passive::Passive;

verus! {

#[derive(PartialEq, Eq, Structural, Clone, Debug)]
pub struct GiveRoleResponse {}

/// System action: give a player a role, resetting its role state even if it had the role:
/// its volatile holdings are destroyed and its links severed; it then gets, as volatile
/// holdings, the abilities, passives and notebooks of the role's config, and the actor
/// links of every player are made anew.
#[derive(PartialEq, Eq, Structural, Clone, Debug)]
pub struct GiveRole {
    pub target_id: ID,
    pub role: Role,
}

/// Whether every player of `e` has a role config, player `t` counting with role `role`.
pub open spec fn roles_configured_with(e: Engine, t: ID, role: Role) -> bool {
    forall|k: ID| #[trigger] e.world.is_player(k) ==> e.config.role_spec(if k == t { role } else { e.world.player(k).role }) is Some
}

impl GiveRole {
    pub open spec fn role_config(&self, e: Engine) -> RoleConfig {
        e.config.role_spec(self.role)->0
    }

    /// The player's holdings exist, and it has every pool that the configs of the role's
    /// abilities name (the engine crashes otherwise).
    pub open spec fn ready(&self, e: Engine) -> bool {
        &&& holdings_exist(e, self.target_id)
        &&& e.world.actors@.contains_key(self.target_id) && e.config.role_spec(self.role) is Some ==> forall|i: int|
            0 <= i < self.role_config(e).abilities@.len() ==> match e.config.ability_spec(
                (#[trigger] self.role_config(e).abilities@[i]).identifier,
            ) {
                Some(c) => has_config_pools(c.default_links@, e.world.actors@[self.target_id]),
                None => true,
            }
    }

    /// Why role ability `i` cannot be given, if it cannot.
    pub open spec fn ability_error(&self, e: Engine, mutate: bool, i: int) -> Option<ActionError> {
        let ra = self.role_config(e).abilities@[i];
        let c = e.config.ability_spec(ra.identifier);
        if c is None {
            Some(ActionError::AbilityConfigNotFound)
        } else if mutate && link_all(
            e.world.charge_pools@,
            config_pool_links(c->0.default_links@, e.world.actors@[self.target_id]),
        ) is None {
            Some(ActionError::ChargePoolNotFound)
        } else {
            None
        }
    }

    /// The first error among the first `n` role abilities, if any.
    pub open spec fn abilities_refusal(&self, e: Engine, mutate: bool, n: nat) -> Option<ActionError>
        decreases n,
    {
        if n == 0 {
            None
        } else {
            match self.abilities_refusal(e, mutate, (n - 1) as nat) {
                Some(err) => Some(err),
                None => self.ability_error(e, mutate, n - 1),
            }
        }
    }

    pub proof fn lemma_abilities_refusal_extends(&self, e: Engine, mutate: bool, k: nat, n: nat)
        requires
            k <= n,
            self.abilities_refusal(e, mutate, k) is Some,
        ensures
            self.abilities_refusal(e, mutate, n) == self.abilities_refusal(e, mutate, k),
        decreases n - k,
    {
        if k < n {
            self.lemma_abilities_refusal_extends(e, mutate, k, (n - 1) as nat);
        }
    }

    /// When every configured role ability can be linked, the first error is that of a
    /// role ability without a config.
    pub proof fn lemma_abilities_refusal_configs(&self, e: Engine, n: nat)
        requires
            n <= self.role_config(e).abilities@.len(),
            forall|i: int| 0 <= i < n && (#[trigger] self.ability_error(e, true, i)) is Some
                ==> e.config.ability_spec(self.role_config(e).abilities@[i].identifier) is None,
        ensures
            self.abilities_refusal(e, true, n) == if exists|i: int| 0 <= i < n
                && e.config.ability_spec((#[trigger] self.role_config(e).abilities@[i]).identifier) is None {
                Some(ActionError::AbilityConfigNotFound)
            } else {
                None::<ActionError>
            },
        decreases n,
    {
        if n > 0 {
            self.lemma_abilities_refusal_configs(e, (n - 1) as nat);
            if exists|i: int| 0 <= i < n - 1
                && e.config.ability_spec((#[trigger] self.role_config(e).abilities@[i]).identifier) is None {
                let i = choose|i: int| 0 <= i < n - 1
                    && e.config.ability_spec((#[trigger] self.role_config(e).abilities@[i]).identifier) is None;
                assert(0 <= i < n);
            } else {
                if e.config.ability_spec(self.role_config(e).abilities@[n - 1].identifier) is None {
                    assert(0 <= n - 1 < n);
                }
            }
        }
    }

    /// Why the role is not given, if it is not.
    pub open spec fn refusal(&self, e: Engine, actor: ActionActor, mutate: bool) -> Option<ActionError> {
        let na = self.role_config(e).abilities@.len();
        let t = self.target_id;
        if !(actor is System) {
            Some(ActionError::RequiresSystem)
        } else if player_refusal(e, t) is Some {
            player_refusal(e, t)
        } else if e.config.role_spec(self.role) is None {
            Some(ActionError::RoleConfigNotFound)
        } else if self.abilities_refusal(e, mutate, na) is Some {
            self.abilities_refusal(e, mutate, na)
        } else if !roles_configured_with(e, t, if mutate { self.role } else { e.world.player(t).role }) {
            Some(ActionError::RoleConfigNotFound)
        } else {
            None
        }
    }

    /// What a successful gift of the role does: the player has the role; its volatile
    /// holdings are gone and the others kept; it holds, as volatile, exactly the new
    /// abilities, passives and notebooks, one per entry of the role's config; its actor
    /// links are exactly those that the role gives it.
    pub open spec fn given(&self, e0: Engine, e1: Engine) -> bool {
        let t = self.target_id;
        let rc = self.role_config(e0);
        let a0 = e0.world.abilities.next_key();
        let p0 = e0.world.passives.next_key();
        let n0 = e0.world.notebooks.next_key();
        let l0 = e0.world.actors@[t];
        let l1 = e1.world.actors@[t];
        &&& e1.config == e0.config
        &&& e1.world.actors@.dom() == e0.world.actors@.dom()
        &&& forall|k: ID| k != t && #[trigger] e1.world.actors@.contains_key(k)
            ==> e1.world.actors@[k].actor_type == e0.world.actors@[k].actor_type
        &&& e1.world.abilities.next_key() == a0 + rc.abilities@.len()
        &&& e1.world.passives.next_key() == p0 + rc.passives@.len()
        &&& e1.world.notebooks.next_key() == n0 + rc.notebooks@.len()
        &&& e1.world.is_player(t)
        &&& e1.world.player(t).role == self.role
        &&& l1.links@ == links_added(Seq::<ActorLink>::empty(), links_of(e1, t))
        &&& forall|k: ID| #[trigger] l1.abilities@.contains(k)
            <==> (l0.abilities@.contains(k) && !purged_ability(e0, t, k)) || (a0 <= k < a0 + rc.abilities@.len())
        &&& forall|k: ID| #[trigger] l1.passives@.contains(k)
            <==> (l0.passives@.contains(k) && !purged_passive(e0, t, k)) || (p0 <= k < p0 + rc.passives@.len())
        &&& forall|k: ID| #[trigger] l1.notebooks@.contains(k)
            <==> (l0.notebooks@.contains(k) && !purged_notebook(e0, t, k)) || (n0 <= k < n0 + rc.notebooks@.len())
        &&& forall|k: ID| #[trigger] purged_ability(e1, t, k) <==> a0 <= k < a0 + rc.abilities@.len()
        &&& forall|k: ID| #[trigger] purged_passive(e1, t, k) <==> p0 <= k < p0 + rc.passives@.len()
        &&& forall|k: ID| #[trigger] purged_notebook(e1, t, k) <==> n0 <= k < n0 + rc.notebooks@.len()
        &&& forall|k: ID| #[trigger] e0.world.passives@.contains_key(k) && !purged_passive(e0, t, k)
            ==> e1.world.passives@.contains_key(k) && e1.world.passives@[k] == e0.world.passives@[k]
        &&& forall|k: ID| #[trigger] e0.world.notebooks@.contains_key(k) && !purged_notebook(e0, t, k)
            ==> e1.world.notebooks@.contains_key(k) && e1.world.notebooks@[k] == e0.world.notebooks@[k]
        &&& e1.world.player(t).true_name == e0.world.player(t).true_name
        &&& e1.world.actors@[t].pool_map == e0.world.actors@[t].pool_map
        &&& e1.world.charge_pools@.dom() == e0.world.charge_pools@.dom()
        &&& forall|k: ID| #[trigger] purged_ability(e0, t, k) ==> !e1.world.abilities@.contains_key(k)
        &&& forall|k: ID| #[trigger] e0.world.abilities@.contains_key(k) && !purged_ability(e0, t, k)
            ==> e1.world.abilities@.contains_key(k) && e1.world.abilities@[k] == e0.world.abilities@[k]
        &&& forall|k: ID| #[trigger] purged_passive(e0, t, k) ==> !e1.world.passives@.contains_key(k)
        &&& forall|k: ID| #[trigger] purged_notebook(e0, t, k) ==> !e1.world.notebooks@.contains_key(k)
        &&& forall|i: int| 0 <= i < rc.abilities@.len() ==> {
            let a = #[trigger] e1.world.abilities@[(a0 + i) as ID];
            &&& e1.world.abilities@.contains_key((a0 + i) as ID)
            &&& a.ownership_struct == (OwnershipStruct {
                owner: Some(t),
                transferrable: rc.abilities@[i].transferrable,
                volatile: true,
            })
            &&& kind_of(a) == rc.abilities@[i].identifier
        }
        &&& forall|j: int| 0 <= j < rc.passives@.len() ==> e1.world.passives@.contains_key((p0 + j) as ID)
            && #[trigger] e1.world.passives@[(p0 + j) as ID] == (Passive {
            ownership_struct: OwnershipStruct { owner: Some(t), transferrable: rc.passives@[j].transferrable, volatile: true },
            passive_type: rc.passives@[j].passive_type,
        })
        &&& forall|j: int| 0 <= j < rc.notebooks@.len() ==> e1.world.notebooks@.contains_key((n0 + j) as ID)
            && #[trigger] e1.world.notebooks@[(n0 + j) as ID] == (Notebook {
            owner: Some(t),
            volatile: true,
            fake: rc.notebooks@[j].fake,
        })
    }

    /// What the handler does besides answering: its effect on the engine (from `e0` to
    /// `e1`) and on the commands (from `c0` to `c1`), given its answer `r`.
    pub open spec fn effect(
        &self,
        e0: Engine,
        e1: Engine,
        c0: Seq<CommandPacket>,
        c1: Seq<CommandPacket>,
        actor: ActionActor,
        mutate: bool,
        r: ActionResult,
    ) -> bool {
        &&& (e1.wf())
        &&& (c1 =~= c0)
        &&& (e1.only_touches(
            e0,
            Touched { actors: true, abilities: true, charge_pools: true, passives: true, notebooks: true, ..Touched::nothing() },
        ))
        &&& (self.refusal(e0, actor, mutate) matches Some(err) && (err == ActionError::RequiresSystem
            || err == ActionError::ActorNotFound || err == ActionError::NotAPlayer) ==> e1.unchanged(e0))
        &&& (!mutate ==> e1.unchanged(e0))
        &&& (mutate && r is Ok ==> self.given(e0, e1))
    }

    /// The answer to a request from `actor`, from the engine before (`e0`) and after (`e1`)
    /// the handler runs.
    pub open spec fn answer(&self, e0: Engine, e1: Engine, actor: ActionActor, mutate: bool) -> ActionResult {
        match self.refusal(e0, actor, mutate) {
            Some(e) => Err::<ActionResponse, ActionError>(e),
            None => Ok(ActionResponse::GiveRole(GiveRoleResponse {})),
        }
    }

    #[verifier::loop_isolation(false)]
    #[verifier::rlimit(80)]
    pub fn handle(
        &mut self,
        eng: &mut Engine,
        ctx: &mut ActionContext,
        actor: &ActionActor,
        version: Version,
        mutate: bool,
    ) -> (r: ActionResult)
        requires
            old(eng).wf(),
            old(self).ready(*old(eng)),
        ensures
            final(eng).wf(),
            *final(self) == *old(self),
            final(ctx).commands@ == old(ctx).commands@,
            final(eng).only_touches(
                *old(eng),
                Touched { actors: true, abilities: true, charge_pools: true, passives: true, notebooks: true, ..Touched::nothing() },
            ),
            old(self).refusal(*old(eng), *actor, mutate) matches Some(err) && (err == ActionError::RequiresSystem
                || err == ActionError::ActorNotFound || err == ActionError::NotAPlayer) ==> final(eng).unchanged(*old(eng)),
            !mutate ==> final(eng).unchanged(*old(eng)),
            r == old(self).answer(*old(eng), *final(eng), *actor, mutate),
            mutate && r is Ok ==> old(self).given(*old(eng), *final(eng)),
            old(self).effect(*old(eng), *final(eng), old(ctx).commands@, final(ctx).commands@, *actor, mutate, r),
    {
        actor.require_system()?;
        let _ = get_player(eng, self.target_id)?;
        let ghost e0 = *eng;
        let ghost t = self.target_id;
        let ghost rc = self.role_config(e0);
        let ghost a0 = e0.world.abilities.next_key();
        let ghost p0 = e0.world.passives.next_key();
        let ghost n0 = e0.world.notebooks.next_key();
        proof {
            e0.world.abilities.lemma_next_key_bounded();
            e0.world.passives.lemma_next_key_bounded();
            e0.world.notebooks.lemma_next_key_bounded();
        }

        if mutate {
            eng.world.set_player_role(self.target_id, self.role);
            proof {
                lemma_player_replaced(e0.world.actors@, eng.world.actors@, t, eng.world.player(t));
            }
        }
        let ghost e1 = *eng;
        (PurgeVolatiles { actor_id: self.target_id }).handle(eng, ctx, actor, version, mutate)?;
        if mutate {
            eng.world.clear_actor_links(self.target_id);
            proof {
                lemma_same_actor_types(e1.world.actors@, eng.world.actors@);
            }
        }
        let ghost e2 = *eng;
        proof {
            if mutate {
                let l0 = e0.world.actors@[t];
                assert forall|k: ID| #[trigger] e0.world.abilities@.contains_key(k) && !purged_ability(e0, t, k)
                    implies e2.world.abilities@.contains_key(k) && e2.world.abilities@[k] == e0.world.abilities@[k] by {
                    assert(!purged_ability(e1, t, k));
                }
                assert forall|k: ID| #[trigger] purged_ability(e0, t, k) implies !e2.world.abilities@.contains_key(k) && (k as int) < a0 by {
                    assert(purged_ability(e1, t, k));
                    let w = choose|w: int| 0 <= w < l0.abilities@.len() && l0.abilities@[w] == k;
                    assert(e0.world.abilities@.contains_key(l0.abilities@[w]));
                    e0.world.abilities.lemma_keys_below_next(k);
                }
                assert forall|k: ID| #[trigger] purged_passive(e0, t, k) implies !e2.world.passives@.contains_key(k) && (k as int) < p0 by {
                    assert(purged_passive(e1, t, k));
                    let w = choose|w: int| 0 <= w < l0.passives@.len() && l0.passives@[w] == k;
                    assert(e0.world.passives@.contains_key(l0.passives@[w]));
                    e0.world.passives.lemma_keys_below_next(k);
                }
                assert forall|k: ID| #[trigger] purged_notebook(e0, t, k) implies !e2.world.notebooks@.contains_key(k) && (k as int) < n0 by {
                    assert(purged_notebook(e1, t, k));
                    let w = choose|w: int| 0 <= w < l0.notebooks@.len() && l0.notebooks@[w] == k;
                    assert(e0.world.notebooks@.contains_key(l0.notebooks@[w]));
                    e0.world.notebooks.lemma_keys_below_next(k);
                }
                assert forall|k: ID| #[trigger] e0.world.passives@.contains_key(k) && !purged_passive(e0, t, k)
                    implies e2.world.passives@.contains_key(k) && e2.world.passives@[k] == e0.world.passives@[k] by {
                    assert(!purged_passive(e1, t, k));
                }
                assert forall|k: ID| #[trigger] e0.world.notebooks@.contains_key(k) && !purged_notebook(e0, t, k)
                    implies e2.world.notebooks@.contains_key(k) && e2.world.notebooks@[k] == e0.world.notebooks@[k] by {
                    assert(!purged_notebook(e1, t, k));
                }
                assert forall|k: ID| #[trigger] e2.world.actors@[t].abilities@.contains(k)
                    <==> l0.abilities@.contains(k) && !purged_ability(e0, t, k) by {
                    assert(purged_ability(e1, t, k) == purged_ability(e0, t, k));
                }
                assert forall|k: ID| #[trigger] e2.world.actors@[t].passives@.contains(k)
                    <==> l0.passives@.contains(k) && !purged_passive(e0, t, k) by {
                    assert(purged_passive(e1, t, k) == purged_passive(e0, t, k));
                }
                assert forall|k: ID| #[trigger] e2.world.actors@[t].notebooks@.contains(k)
                    <==> l0.notebooks@.contains(k) && !purged_notebook(e0, t, k) by {
                    assert(purged_notebook(e1, t, k) == purged_notebook(e0, t, k));
                }
            }
        }

        let _ = get_role_config(eng, self.role)?;

        let na: usize = get_role_config(eng, self.role).unwrap().abilities.len();
        let mut i: usize = 0;
        while i < na
            invariant
                i <= na,
                na == rc.abilities@.len(),
                e0.config.role_spec(self.role) is Some,
                eng.config == e0.config,
                eng.time == e0.time,
                eng.wf(),
                ctx.commands@ == old(ctx).commands@,
                eng.only_touches(e2, Touched { actors: true, abilities: true, charge_pools: true, ..Touched::nothing() }),
                !mutate ==> eng.unchanged(e2),
                same_actor_types(e2.world.actors@, eng.world.actors@),
                eng.world.actors@[t].pool_map == e0.world.actors@[t].pool_map,
                eng.world.charge_pools@.dom() == e0.world.charge_pools@.dom(),
                self.abilities_refusal(e0, mutate, i as nat) is None,
                mutate ==> eng.world.abilities.next_key() == a0 + i,
                mutate ==> forall|k: ID| #[trigger] purged_ability(e0, t, k) ==> !eng.world.abilities@.contains_key(k),
                mutate ==> forall|k: ID| #[trigger] e0.world.abilities@.contains_key(k) && !purged_ability(e0, t, k)
                    ==> eng.world.abilities@.contains_key(k) && eng.world.abilities@[k] == e0.world.abilities@[k],
                mutate ==> eng.world.actors@[t] == (Actor { abilities: eng.world.actors@[t].abilities, ..e2.world.actors@[t] }),
                mutate ==> forall|k: ID| #[trigger] eng.world.actors@[t].abilities@.contains(k)
                    <==> e2.world.actors@[t].abilities@.contains(k) || (a0 <= k < a0 + i),
                mutate ==> forall|j: int| 0 <= j < i ==> {
                    let a = #[trigger] eng.world.abilities@[(a0 + j) as ID];
                    &&& eng.world.abilities@.contains_key((a0 + j) as ID)
                    &&& a.ownership_struct == (OwnershipStruct {
                        owner: Some(t),
                        transferrable: rc.abilities@[j].transferrable,
                        volatile: true,
                    })
                    &&& kind_of(a) == rc.abilities@[j].identifier
                },
            decreases na - i,
        {
            let ra: RoleAbility = get_role_config(eng, self.role).unwrap().abilities[i];
            let mut give = CreateAndGiveAbility {
                ability_name: ra.identifier.name,
                variant: ra.identifier.variant,
                transferrable: ra.transferrable,
                actor_id: self.target_id,
                volatile: true,
            };
            let ghost before = *eng;
            proof {
                lemma_same_actor_types(e2.world.actors@, eng.world.actors@);
                assert(rc.abilities@[i as int] == ra);
                if e0.config.ability_spec(ra.identifier) is Some {
                    let cl = e0.config.ability_spec(ra.identifier)->0.default_links@;
                    assert(has_config_pools(cl, e0.world.actors@[t]));
                    assert(config_pool_links(cl, eng.world.actors@[t]) =~= config_pool_links(cl, e0.world.actors@[t]));
                    lemma_link_all_dom(eng.world.charge_pools@, e0.world.charge_pools@, config_pool_links(cl, e0.world.actors@[t]));
                }
                if mutate {
                    eng.world.abilities.lemma_next_key_bounded();
                }
            }
            let res = give.handle(eng, ctx, actor, version, mutate);
            if res.is_err() {
                proof {
                    assert(self.abilities_refusal(e0, mutate, i as nat + 1) is Some);
                    self.lemma_abilities_refusal_extends(e0, mutate, i as nat + 1, na as nat);
                }
                return Err(res.unwrap_err());
            }
            proof {
                if mutate {
                    let cl = e0.config.ability_spec(ra.identifier)->0.default_links@;
                    lemma_link_all_dom(before.world.charge_pools@, e0.world.charge_pools@, config_pool_links(cl, before.world.actors@[t]));
                    assert forall|k: ID| #[trigger] purged_ability(e0, t, k) implies !eng.world.abilities@.contains_key(k) by {
                        assert((k as int) < a0);
                    }
                    assert forall|k: ID| #[trigger] e0.world.abilities@.contains_key(k) && !purged_ability(e0, t, k)
                        implies eng.world.abilities@.contains_key(k) && eng.world.abilities@[k] == e0.world.abilities@[k] by {
                        e0.world.abilities.lemma_keys_below_next(k);
                    }
                    lemma_push_contains(before.world.actors@[t].abilities@, (a0 + i) as ID);
                    assert forall|k: ID| #[trigger] eng.world.actors@[t].abilities@.contains(k)
                        <==> e2.world.actors@[t].abilities@.contains(k) || (a0 <= k < a0 + i + 1) by {
                        assert(before.world.actors@[t].abilities@.contains(k) <==> e2.world.actors@[t].abilities@.contains(k) || (a0 <= k < a0 + i));
                    }
                }
            }
            i = i + 1;
        }
        let ghost e3 = *eng;
        proof {
            if mutate {
                assert forall|k: ID| a0 <= k < a0 + rc.abilities@.len() implies #[trigger] e3.world.abilities@.contains_key(k)
                    && e3.world.abilities@[k].ownership_struct.volatile by {
                    let q: int = k - a0;
                    assert((a0 + q) as ID == k);
                }
            }
        }

        let np: usize = get_role_config(eng, self.role).unwrap().passives.len();
        let mut j: usize = 0;
        while j < np
            invariant
                j <= np,
                np == rc.passives@.len(),
                eng.config == e0.config,
                eng.wf(),
                ctx.commands@ == old(ctx).commands@,
                eng.only_touches(e3, Touched { actors: true, passives: true, ..Touched::nothing() }),
                !mutate ==> eng.unchanged(e3),
                same_actor_types(e3.world.actors@, eng.world.actors@),
                eng.world.actors@[t].pool_map == e0.world.actors@[t].pool_map,
                eng.world.charge_pools@.dom() == e0.world.charge_pools@.dom(),
                mutate ==> eng.world.passives.next_key() == p0 + j,
                mutate ==> forall|k: ID| #[trigger] purged_passive(e0, t, k) ==> !eng.world.passives@.contains_key(k),
                mutate ==> eng.world.actors@[t] == (Actor { passives: eng.world.actors@[t].passives, ..e3.world.actors@[t] }),
                mutate ==> forall|k: ID| #[trigger] eng.world.actors@[t].passives@.contains(k)
                    <==> e3.world.actors@[t].passives@.contains(k) || (p0 <= k < p0 + j),
                mutate ==> forall|k: ID| #[trigger] e0.world.passives@.contains_key(k) && !purged_passive(e0, t, k)
                    ==> eng.world.passives@.contains_key(k) && eng.world.passives@[k] == e0.world.passives@[k],
                mutate ==> forall|q: int| 0 <= q < j ==> eng.world.passives@.contains_key((p0 + q) as ID)
                    && #[trigger] eng.world.passives@[(p0 + q) as ID] == (Passive {
                    ownership_struct: OwnershipStruct { owner: Some(t), transferrable: rc.passives@[q].transferrable, volatile: true },
                    passive_type: rc.passives@[q].passive_type,
                }),
            decreases np - j,
        {
            let rp: RolePassive = get_role_config(eng, self.role).unwrap().passives[j];
            let mut give = CreateAndGivePassive {
                actor_id: self.target_id,
                passive_type: rp.passive_type,
                transferrable: rp.transferrable,
                volatile: true,
            };
            proof {
                lemma_same_actor_types(e3.world.actors@, eng.world.actors@);
                assert(rc.passives@[j as int] == rp);
                if mutate {
                    eng.world.passives.lemma_next_key_bounded();
                }
            }
            let ghost before = *eng;
            let _ = give.handle(eng, ctx, actor, version, mutate);
            proof {
                if mutate {
                    assert forall|k: ID| #[trigger] purged_passive(e0, t, k) implies !eng.world.passives@.contains_key(k) by {
                        assert((k as int) < p0);
                    }
                    assert forall|k: ID| #[trigger] e0.world.passives@.contains_key(k) && !purged_passive(e0, t, k)
                        implies eng.world.passives@.contains_key(k) && eng.world.passives@[k] == e0.world.passives@[k] by {
                        e0.world.passives.lemma_keys_below_next(k);
                    }
                    lemma_push_contains(before.world.actors@[t].passives@, (p0 + j) as ID);
                    assert forall|k: ID| #[trigger] eng.world.actors@[t].passives@.contains(k)
                        <==> e3.world.actors@[t].passives@.contains(k) || (p0 <= k < p0 + j + 1) by {
                        assert(before.world.actors@[t].passives@.contains(k) <==> e3.world.actors@[t].passives@.contains(k) || (p0 <= k < p0 + j));
                    }
                }
            }
            j = j + 1;
        }
        let ghost e4 = *eng;
        proof {
            if mutate {
                assert forall|k: ID| p0 <= k < p0 + rc.passives@.len() implies #[trigger] e4.world.passives@.contains_key(k)
                    && e4.world.passives@[k].ownership_struct.volatile by {
                    let q: int = k - p0;
                    assert((p0 + q) as ID == k);
                }
            }
        }

        let nn: usize = get_role_config(eng, self.role).unwrap().notebooks.len();
        let mut j: usize = 0;
        while j < nn
            invariant
                j <= nn,
                nn == rc.notebooks@.len(),
                eng.config == e0.config,
                eng.wf(),
                ctx.commands@ == old(ctx).commands@,
                eng.only_touches(e4, Touched { actors: true, notebooks: true, ..Touched::nothing() }),
                !mutate ==> eng.unchanged(e4),
                same_actor_types(e4.world.actors@, eng.world.actors@),
                eng.world.actors@[t].pool_map == e0.world.actors@[t].pool_map,
                eng.world.charge_pools@.dom() == e0.world.charge_pools@.dom(),
                mutate ==> eng.world.notebooks.next_key() == n0 + j,
                mutate ==> forall|k: ID| #[trigger] purged_notebook(e0, t, k) ==> !eng.world.notebooks@.contains_key(k),
                mutate ==> eng.world.actors@[t] == (Actor { notebooks: eng.world.actors@[t].notebooks, ..e4.world.actors@[t] }),
                mutate ==> forall|k: ID| #[trigger] eng.world.actors@[t].notebooks@.contains(k)
                    <==> e4.world.actors@[t].notebooks@.contains(k) || (n0 <= k < n0 + j),
                mutate ==> forall|k: ID| #[trigger] e0.world.notebooks@.contains_key(k) && !purged_notebook(e0, t, k)
                    ==> eng.world.notebooks@.contains_key(k) && eng.world.notebooks@[k] == e0.world.notebooks@[k],
                mutate ==> forall|q: int| 0 <= q < j ==> eng.world.notebooks@.contains_key((n0 + q) as ID)
                    && #[trigger] eng.world.notebooks@[(n0 + q) as ID] == (Notebook {
                    owner: Some(t),
                    volatile: true,
                    fake: rc.notebooks@[q].fake,
                }),
            decreases nn - j,
        {
            let rn: RoleNotebook = get_role_config(eng, self.role).unwrap().notebooks[j];
            let mut give = CreateAndGiveNotebook { fake: rn.fake, volatile: true, actor_id: self.target_id };
            proof {
                lemma_same_actor_types(e4.world.actors@, eng.world.actors@);
                assert(rc.notebooks@[j as int] == rn);
                if mutate {
                    eng.world.notebooks.lemma_next_key_bounded();
                }
            }
            let ghost before = *eng;
            let _ = give.handle(eng, ctx, actor, version, mutate);
            proof {
                if mutate {
                    assert forall|k: ID| #[trigger] purged_notebook(e0, t, k) implies !eng.world.notebooks@.contains_key(k) by {
                        assert((k as int) < n0);
                    }
                    assert forall|k: ID| #[trigger] e0.world.notebooks@.contains_key(k) && !purged_notebook(e0, t, k)
                        implies eng.world.notebooks@.contains_key(k) && eng.world.notebooks@[k] == e0.world.notebooks@[k] by {
                        e0.world.notebooks.lemma_keys_below_next(k);
                    }
                    lemma_push_contains(before.world.actors@[t].notebooks@, (n0 + j) as ID);
                    assert forall|k: ID| #[trigger] eng.world.actors@[t].notebooks@.contains(k)
                        <==> e4.world.actors@[t].notebooks@.contains(k) || (n0 <= k < n0 + j + 1) by {
                        assert(before.world.actors@[t].notebooks@.contains(k) <==> e4.world.actors@[t].notebooks@.contains(k) || (n0 <= k < n0 + j));
                    }
                }
            }
            j = j + 1;
        }
        let ghost e5 = *eng;
        proof {
            if mutate {
                assert forall|k: ID| n0 <= k < n0 + rc.notebooks@.len() implies #[trigger] e5.world.notebooks@.contains_key(k)
                    && e5.world.notebooks@[k].volatile by {
                    let q: int = k - n0;
                    assert((n0 + q) as ID == k);
                }
            }
        }
        proof {
            lemma_same_actor_types(e4.world.actors@, e5.world.actors@);
            lemma_same_actor_types(e3.world.actors@, e4.world.actors@);
            lemma_same_actor_types(e2.world.actors@, e3.world.actors@);
            let used = if mutate { self.role } else { e0.world.player(t).role };
            assert forall|k: ID| #[trigger] e5.world.is_player(k) == e0.world.is_player(k) by {}
            assert forall|k: ID| e5.world.is_player(k) implies #[trigger] e5.world.player(k).role == (if k == t { used } else { e0.world.player(k).role }) by {
                assert(e2.world.actors@[k].actor_type == e5.world.actors@[k].actor_type);
            }
            assert(crate::action::create_actor_links::roles_configured(e5) == roles_configured_with(e0, t, used)) by {
                if roles_configured_with(e0, t, used) {
                    assert forall|k: ID| #[trigger] e5.world.is_player(k) implies e5.config.role_spec(e5.world.player(k).role) is Some by {
                        assert(e0.world.is_player(k));
                    }
                }
                if crate::action::create_actor_links::roles_configured(e5) {
                    assert forall|k: ID| #[trigger] e0.world.is_player(k) implies e0.config.role_spec(if k == t { used } else { e0.world.player(k).role }) is Some by {
                        assert(e5.world.is_player(k));
                    }
                }
            }
        }

        (CreateActorLinks {}).handle(eng, ctx, actor, version, mutate)?;
        let ghost e6 = *eng;
        proof {
            lemma_same_actor_types(e4.world.actors@, e5.world.actors@);
            if mutate {
                let l0 = e0.world.actors@[t];
                assert(same_actor_types(e5.world.actors@, e6.world.actors@));
                lemma_links_of_stable(e5, e6, t);
                assert forall|k: ID| k != t && #[trigger] e6.world.actors@.contains_key(k)
                    implies e6.world.actors@[k].actor_type == e0.world.actors@[k].actor_type by {
                    assert(e6.world.actors@[k].actor_type == e5.world.actors@[k].actor_type);
                    assert(e5.world.actors@[k].actor_type == e4.world.actors@[k].actor_type);
                    assert(e4.world.actors@[k].actor_type == e3.world.actors@[k].actor_type);
                    assert(e3.world.actors@[k].actor_type == e2.world.actors@[k].actor_type);
                    assert(e2.world.actors@[k].actor_type == e1.world.actors@[k].actor_type);
                }
                assert(e5.world.actors@[t].links@ =~= Seq::<ActorLink>::empty());
                assert forall|k: ID| #[trigger] purged_ability(e6, t, k) <==> a0 <= k < a0 + rc.abilities@.len() by {
                    assert(e6.world.abilities@ == e3.world.abilities@);
                    assert(e6.world.actors@[t].abilities == e3.world.actors@[t].abilities);
                    if a0 <= k < a0 + rc.abilities@.len() {
                        assert(e3.world.abilities@.contains_key(k));
                    }
                    if l0.abilities@.contains(k) && !purged_ability(e0, t, k) {
                        let w = choose|w: int| 0 <= w < l0.abilities@.len() && l0.abilities@[w] == k;
                        assert(e0.world.abilities@.contains_key(l0.abilities@[w]));
                    }
                }
                assert forall|k: ID| #[trigger] purged_passive(e6, t, k) <==> p0 <= k < p0 + rc.passives@.len() by {
                    assert(e6.world.passives@ == e4.world.passives@);
                    assert(e6.world.actors@[t].passives == e4.world.actors@[t].passives);
                    if p0 <= k < p0 + rc.passives@.len() {
                        assert(e4.world.passives@.contains_key(k));
                    }
                    if l0.passives@.contains(k) && !purged_passive(e0, t, k) {
                        let w = choose|w: int| 0 <= w < l0.passives@.len() && l0.passives@[w] == k;
                        assert(e0.world.passives@.contains_key(l0.passives@[w]));
                    }
                }
                assert forall|k: ID| #[trigger] purged_notebook(e6, t, k) <==> n0 <= k < n0 + rc.notebooks@.len() by {
                    assert(e6.world.notebooks@ == e5.world.notebooks@);
                    assert(e6.world.actors@[t].notebooks == e5.world.actors@[t].notebooks);
                    if n0 <= k < n0 + rc.notebooks@.len() {
                        assert(e5.world.notebooks@.contains_key(k));
                    }
                    if l0.notebooks@.contains(k) && !purged_notebook(e0, t, k) {
                        let w = choose|w: int| 0 <= w < l0.notebooks@.len() && l0.notebooks@[w] == k;
                        assert(e0.world.notebooks@.contains_key(l0.notebooks@[w]));
                    }
                }
            }
        }
        Ok(ActionResponse::GiveRole(GiveRoleResponse {}))
    }
}

} // verus!
