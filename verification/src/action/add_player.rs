use vstd::prelude::*;

use crate::ability::kind_of;
use crate::action::ability::create_and_give_ability::CreateAndGiveAbility;
use crate::action::ability::give_ability::{config_pool_links, has_config_pools, lemma_link_all_some, link_all};
use crate::action::actor::purge_volatiles::holdings_exist;
use crate::action::give_role::GiveRole;
use crate::action::{CommandPacket, ActionActor, ActionContext, ActionError, ActionResponse, ActionResult};
use crate::actor::Actor;
use crate::chargepool::ChargePool;
use crate::common::{ID, Version};
use crate::config::{AbilityIdentifier, ActorPoolConfig, Config, ConfigPoolLink, ConfigPoolLinkDetails, PoolName, Role};
use crate::engine::{lemma_same_actor_types, same_actor_types, Engine, Touched};
use crate::ownership::OwnershipStruct;
use crate::seqmap::lemma_lookup_push;

verus! {

#[derive(PartialEq, Eq, Structural, Clone, Debug)]
pub struct AddPlayerResponse {
    /// The key of the new player.
    pub id: ID,
}

/// System action: add a player, whose true name no player has yet.  It gets a charge pool
/// for each actor pool of the config, the universal abilities, and its starting role (see
/// `GiveRole`).  A dry run only checks the name and answers with id 0.
#[derive(PartialEq, Eq, Clone, Debug)]
pub struct AddPlayer {
    pub true_name: String,
    pub starting_role: Role,
}

/// Whether the config gives every player an actor pool named `n`.
pub open spec fn names_pool(c: Config, n: PoolName) -> bool {
    exists|j: int| 0 <= j < c.actor_pools@.len() && #[trigger] c.actor_pools@[j].name == n
}

/// Whether every pool that the links `cl` name is an actor pool of the config.
pub open spec fn links_defined(c: Config, cl: Seq<ConfigPoolLink>) -> bool {
    forall|i: int| 0 <= i < cl.len() ==> match (#[trigger] cl[i]).details {
        ConfigPoolLinkDetails::Actor(n) => names_pool(c, n),
    }
}

/// Every pool that an ability config links to is an actor pool that the config gives every
/// player.
pub open spec fn pool_names_defined(c: Config) -> bool {
    forall|id: AbilityIdentifier| #[trigger] c.ability_spec(id) matches Some(ac) ==> links_defined(c, ac.default_links@)
}

/// Whether some universal ability has no config.
pub open spec fn universal_unconfigured(c: Config) -> bool {
    exists|i: int| 0 <= i < c.defaults.universal_abilities@.len()
        && c.ability_spec(#[trigger] c.defaults.universal_abilities@[i]) is None
}

/// Whether some ability of role `r` has no config.
pub open spec fn role_unconfigured(c: Config, r: Role) -> bool {
    exists|i: int| 0 <= i < c.role_spec(r)->0.abilities@.len()
        && c.ability_spec((#[trigger] c.role_spec(r)->0.abilities@[i]).identifier) is None
}

/// Whether actor `a` has a pool for each actor pool of the config, and each exists.
pub open spec fn pools_made(c: Config, a: Actor, pools: Map<ID, crate::chargepool::ChargePool>) -> bool {
    &&& forall|n: PoolName| #[trigger] names_pool(c, n) ==> a.pool_spec(n) is Some
    &&& forall|n: PoolName| #[trigger] a.pool_spec(n) matches Some(p) ==> pools.contains_key(p)
}

impl AddPlayer {
    /// Why the player is not added, if it is not.
    pub open spec fn refusal(&self, e: Engine, actor: ActionActor, mutate: bool) -> Option<ActionError> {
        let c = e.config;
        if !(actor is System) {
            Some(ActionError::RequiresSystem)
        } else if e.world.name_taken(self.true_name@) {
            Some(ActionError::NameNotUnique)
        } else if !mutate {
            None
        } else if universal_unconfigured(c) {
            Some(ActionError::AbilityConfigNotFound)
        } else if c.role_spec(self.starting_role) is None {
            Some(ActionError::RoleConfigNotFound)
        } else if role_unconfigured(c, self.starting_role) {
            Some(ActionError::AbilityConfigNotFound)
        } else if exists|k: ID| #[trigger] e.world.is_player(k) && c.role_spec(e.world.player(k).role) is None {
            Some(ActionError::RoleConfigNotFound)
        } else {
            None
        }
    }

    /// What the handler does besides answering: its effect on the engine (from `e0` to
    /// `e1`) and on the commands (from `c0` to `c1`), given its answer `r`.
    pub open spec fn effect(
        &self,
        e0: Engine,
        e1: Engine,
        c0: Seq<CommandPacket>,
        c1: Seq<CommandPacket>,
        actor: ActionActor,
        mutate: bool,
        r: ActionResult,
    ) -> bool {
        &&& (e1.wf())
        &&& (c1 =~= c0)
        &&& (e1.only_touches(
            e0,
            Touched { actors: true, abilities: true, charge_pools: true, passives: true, notebooks: true, ..Touched::nothing() },
        ))
        &&& (!mutate || self.refusal(e0, actor, false) is Some ==> e1.unchanged(e0))
        &&& (mutate && r is Ok ==> {
            let id = e0.world.actors.next_key() as ID;
            let us = e0.config.defaults.universal_abilities@;
            let a0 = e0.world.abilities.next_key();
            &&& !e0.world.actors@.contains_key(id)
            &&& e1.world.is_player(id)
            &&& e1.world.player(id).true_name@ =~= self.true_name@
            &&& e1.world.player(id).role == self.starting_role
            &&& forall|k: ID| #[trigger] e1.world.is_player(k) && e1.world.player(k).true_name@ == self.true_name@ ==> k == id
            &&& e1.world.actors@.dom() == e0.world.actors@.dom().insert(id)
            &&& forall|k: ID| k != id && #[trigger] e0.world.actors@.contains_key(k)
                ==> e1.world.actors@[k].actor_type == e0.world.actors@[k].actor_type
            &&& pools_made(e0.config, e1.world.actors@[id], e1.world.charge_pools@)
            &&& forall|i: int| 0 <= i < us.len() ==> {
                let a = #[trigger] e1.world.abilities@[(a0 + i) as ID];
                &&& e1.world.abilities@.contains_key((a0 + i) as ID)
                &&& a.ownership_struct == (OwnershipStruct { owner: Some(id), transferrable: false, volatile: false })
                &&& kind_of(a) == us[i]
            }
            &&& exists|mid: Engine| (GiveRole { target_id: id, role: self.starting_role }).given(mid, e1)
                && mid.world.abilities.next_key() == a0 + us.len()
        })
    }

    /// The answer to a request from `actor`, from the engine before (`e0`) and after (`e1`)
    /// the handler runs.
    pub open spec fn answer(&self, e0: Engine, e1: Engine, actor: ActionActor, mutate: bool) -> ActionResult {
        match self.refusal(e0, actor, mutate) {
            Some(e) => Err::<ActionResponse, ActionError>(e),
            None => Ok(ActionResponse::AddPlayer(AddPlayerResponse {
                id: if mutate { e0.world.actors.next_key() as ID } else { 0 },
            })),
        }
    }

    #[verifier::loop_isolation(false)]
    #[verifier::rlimit(80)]
    pub fn handle(
        &mut self,
        eng: &mut Engine,
        ctx: &mut ActionContext,
        actor: &ActionActor,
        version: Version,
        mutate: bool,
    ) -> (r: ActionResult)
        requires
            old(eng).wf(),
            !old(eng).world.name_taken(old(self).true_name@) ==> pool_names_defined(old(eng).config),
        ensures
            final(eng).wf(),
            *final(self) == *old(self),
            final(ctx).commands@ == old(ctx).commands@,
            *actor is System && old(eng).world.name_taken(old(self).true_name@)
                ==> r == Err::<ActionResponse, ActionError>(ActionError::NameNotUnique) && final(eng).unchanged(*old(eng)),
            final(eng).only_touches(
                *old(eng),
                Touched { actors: true, abilities: true, charge_pools: true, passives: true, notebooks: true, ..Touched::nothing() },
            ),
            !mutate || old(self).refusal(*old(eng), *actor, false) is Some ==> final(eng).unchanged(*old(eng)),
            r == old(self).answer(*old(eng), *final(eng), *actor, mutate),
            mutate && r is Ok ==> {
                let id = old(eng).world.actors.next_key() as ID;
                let us = old(eng).config.defaults.universal_abilities@;
                let a0 = old(eng).world.abilities.next_key();
                &&& !old(eng).world.actors@.contains_key(id)
                &&& final(eng).world.is_player(id)
                &&& final(eng).world.player(id).true_name@ == old(self).true_name@
                &&& final(eng).world.player(id).role == old(self).starting_role
                &&& forall|k: ID| #[trigger] final(eng).world.is_player(k) && final(eng).world.player(k).true_name@ == old(self).true_name@
                    ==> k == id
                &&& final(eng).world.actors@.dom() == old(eng).world.actors@.dom().insert(id)
                &&& forall|k: ID| k != id && #[trigger] old(eng).world.actors@.contains_key(k)
                    ==> final(eng).world.actors@[k].actor_type == old(eng).world.actors@[k].actor_type
                &&& pools_made(old(eng).config, final(eng).world.actors@[id], final(eng).world.charge_pools@)
                &&& forall|i: int| 0 <= i < us.len() ==> {
                    let a = #[trigger] final(eng).world.abilities@[(a0 + i) as ID];
                    &&& final(eng).world.abilities@.contains_key((a0 + i) as ID)
                    &&& a.ownership_struct == (OwnershipStruct { owner: Some(id), transferrable: false, volatile: false })
                    &&& kind_of(a) == us[i]
                }
                &&& exists|mid: Engine| (GiveRole { target_id: id, role: old(self).starting_role }).given(mid, *final(eng))
                    && mid.world.abilities.next_key() == a0 + us.len()
            },
            old(self).effect(*old(eng), *final(eng), old(ctx).commands@, final(ctx).commands@, *actor, mutate, r),
    {
        actor.require_system()?;
        if eng.world.get_player_id_by_name(&self.true_name).is_some() {
            return Err(ActionError::NameNotUnique);
        }
        if !mutate {
            return Ok(ActionResponse::AddPlayer(AddPlayerResponse { id: 0 }));
        }
        let ghost e0 = *eng;
        let ghost c = e0.config;
        let ghost a0 = e0.world.abilities.next_key();
        proof {
            e0.world.abilities.lemma_next_key_bounded();
        }
        let id: ID = eng.world.add_player(&self.true_name, self.starting_role).unwrap();
        let ghost e1 = *eng;
        proof {
            assert forall|m: ID| #[trigger] crate::engine::actor_is_player(e1.world.actors@, m)
                == (crate::engine::actor_is_player(e0.world.actors@, m) || m == id) by {}
        }

        let np: usize = eng.config.actor_pools.len();
        let mut i: usize = 0;
        while i < np
            invariant
                i <= np,
                np == c.actor_pools@.len(),
                eng.config == c,
                eng.wf(),
                eng.only_touches(e1, Touched { actors: true, charge_pools: true, ..Touched::nothing() }),
                same_actor_types(e1.world.actors@, eng.world.actors@),
                eng.world.actors@ == e1.world.actors@.insert(id, eng.world.actors@[id]),
                eng.world.actors@[id] == (Actor { pool_map: eng.world.actors@[id].pool_map, ..e1.world.actors@[id] }),
                forall|j: int| 0 <= j < i ==> #[trigger] eng.world.actors@[id].pool_spec(c.actor_pools@[j].name) is Some,
                forall|n: PoolName| #[trigger] eng.world.actors@[id].pool_spec(n) matches Some(p) ==> eng.world.charge_pools@.contains_key(p),
                forall|k: ID| #[trigger] e1.world.charge_pools@.contains_key(k) ==> eng.world.charge_pools@.contains_key(k),
            decreases np - i,
        {
            let pc: ActorPoolConfig = eng.config.actor_pools[i];
            let pid: ID = eng.world.charge_pools.add(ChargePool::new(pc.base_charges, pc.base_reset_time));
            let ghost before = *eng;
            let mut a: Actor = eng.world.actors.take(id).unwrap();
            a.add_pool(pc.name, pid);
            eng.world.actors.put(id, a);
            proof {
                assert(eng.world.actors@ =~= before.world.actors@.insert(id, eng.world.actors@[id]));
                lemma_same_actor_types(before.world.actors@, eng.world.actors@);
                let pm0 = before.world.actors@[id].pool_map@;
                assert forall|n: PoolName| #[trigger] eng.world.actors@[id].pool_spec(n)
                    == if n == pc.name { Some(pid) } else { before.world.actors@[id].pool_spec(n) } by {
                    lemma_lookup_push(pm0, (pc.name, pid), n);
                }
                assert forall|j: int| 0 <= j < i + 1 implies #[trigger] eng.world.actors@[id].pool_spec(c.actor_pools@[j].name) is Some by {
                    if j < i {
                        assert(before.world.actors@[id].pool_spec(c.actor_pools@[j].name) is Some);
                    }
                }
            }
            i = i + 1;
        }
        let ghost e2 = *eng;
        proof {
            assert forall|n: PoolName| #[trigger] names_pool(c, n) implies e2.world.actors@[id].pool_spec(n) is Some by {
                let j = choose|j: int| 0 <= j < c.actor_pools@.len() && #[trigger] c.actor_pools@[j].name == n;
                assert(e2.world.actors@[id].pool_spec(c.actor_pools@[j].name) is Some);
            }
        }

        let nu: usize = eng.config.defaults.universal_abilities.len();
        let ghost us = c.defaults.universal_abilities@;
        let mut i: usize = 0;
        while i < nu
            invariant
                i <= nu,
                nu == us.len(),
                eng.config == c,
                eng.time == e0.time,
                eng.wf(),
                ctx.commands@ == old(ctx).commands@,
                eng.only_touches(e2, Touched { actors: true, abilities: true, charge_pools: true, ..Touched::nothing() }),
                same_actor_types(e2.world.actors@, eng.world.actors@),
                eng.world.actors@[id] == (Actor { abilities: eng.world.actors@[id].abilities, ..e2.world.actors@[id] }),
                eng.world.charge_pools@.dom() == e2.world.charge_pools@.dom(),
                a0 >= 0,
                eng.world.abilities.next_key() == a0 + i,
                forall|j: int| 0 <= j < i ==> e0.config.ability_spec(#[trigger] us[j]) is Some,
                forall|j: int| 0 <= j < i ==> {
                    let a = #[trigger] eng.world.abilities@[(a0 + j) as ID];
                    &&& eng.world.abilities@.contains_key((a0 + j) as ID)
                    &&& a.ownership_struct == (OwnershipStruct { owner: Some(id), transferrable: false, volatile: false })
                    &&& kind_of(a) == us[j]
                },
                forall|j: int| 0 <= j < eng.world.actors@[id].abilities@.len()
                    ==> eng.world.abilities@.contains_key(#[trigger] eng.world.actors@[id].abilities@[j]),
            decreases nu - i,
        {
            let u: AbilityIdentifier = eng.config.defaults.universal_abilities[i];
            let mut give = CreateAndGiveAbility {
                ability_name: u.name,
                variant: u.variant,
                transferrable: false,
                actor_id: id,
                volatile: false,
            };
            let ghost before = *eng;
            proof {
                lemma_same_actor_types(e2.world.actors@, eng.world.actors@);
                eng.world.abilities.lemma_next_key_bounded();
                assert(us[i as int] == u);
                if c.ability_spec(u) is Some {
                    let cl = c.ability_spec(u)->0.default_links@;
                    assert(links_defined(c, cl));
                    assert forall|q: int| 0 <= q < cl.len() implies match (#[trigger] cl[q]).details {
                        ConfigPoolLinkDetails::Actor(n) => eng.world.actors@[id].pool_spec(n) is Some,
                    } by {
                        match cl[q].details {
                            ConfigPoolLinkDetails::Actor(n) => {
                                assert(names_pool(c, n));
                            },
                        }
                    }
                    let nl = config_pool_links(cl, eng.world.actors@[id]);
                    assert forall|q: int| 0 <= q < nl.len() implies eng.world.charge_pools@.contains_key(#[trigger] nl[q].link_dest) by {
                        match cl[q].details {
                            ConfigPoolLinkDetails::Actor(n) => {
                                assert(names_pool(c, n));
                                assert(e2.world.actors@[id].pool_spec(n) is Some);
                            },
                        }
                    }
                    lemma_link_all_some(eng.world.charge_pools@, nl);
                }
            }
            let res = give.handle(eng, ctx, actor, version, true);
            if res.is_err() {
                proof {
                    assert(universal_unconfigured(c));
                }
                return Err(ActionError::AbilityConfigNotFound);
            }
            proof {
                let cl = c.ability_spec(u)->0.default_links@;
                crate::action::ability::give_ability::lemma_link_all_dom(
                    before.world.charge_pools@,
                    before.world.charge_pools@,
                    config_pool_links(cl, before.world.actors@[id]),
                );
                let l0 = before.world.actors@[id].abilities@;
                let l1 = eng.world.actors@[id].abilities@;
                assert forall|j: int| 0 <= j < l1.len() implies eng.world.abilities@.contains_key(#[trigger] l1[j]) by {
                    if j < l0.len() {
                        assert(l1[j] == l0[j]);
                    }
                }
            }
            i = i + 1;
        }
        proof {
            assert(!universal_unconfigured(c));
        }
        let ghost mid = *eng;

        let mut give_role = GiveRole { target_id: id, role: self.starting_role };
        proof {
            lemma_same_actor_types(e2.world.actors@, mid.world.actors@);
            lemma_same_actor_types(e1.world.actors@, mid.world.actors@);
            assert(holdings_exist(mid, id));
            if c.role_spec(self.starting_role) is Some {
                let rc = c.role_spec(self.starting_role)->0;
                assert forall|q: int| 0 <= q < rc.abilities@.len() implies match c.ability_spec((#[trigger] rc.abilities@[q]).identifier) {
                    Some(ac) => has_config_pools(ac.default_links@, mid.world.actors@[id]),
                    None => true,
                } by {
                    let rid = rc.abilities@[q].identifier;
                    if c.ability_spec(rid) is Some {
                        let cl = c.ability_spec(rid)->0.default_links@;
                        assert(links_defined(c, cl));
                        assert forall|w: int| 0 <= w < cl.len() implies match (#[trigger] cl[w]).details {
                            ConfigPoolLinkDetails::Actor(n) => mid.world.actors@[id].pool_spec(n) is Some,
                        } by {
                            match cl[w].details {
                                ConfigPoolLinkDetails::Actor(n) => {
                                    assert(names_pool(c, n));
                                },
                            }
                        }
                    }
                }
                assert forall|q: int| 0 <= q < rc.abilities@.len() && (#[trigger] give_role.ability_error(mid, true, q)) is Some
                    implies c.ability_spec(rc.abilities@[q].identifier) is None by {
                    let rid = rc.abilities@[q].identifier;
                    if c.ability_spec(rid) is Some {
                        let cl = c.ability_spec(rid)->0.default_links@;
                        let nl = config_pool_links(cl, mid.world.actors@[id]);
                        assert(links_defined(c, cl));
                        assert forall|w: int| 0 <= w < nl.len() implies mid.world.charge_pools@.contains_key(#[trigger] nl[w].link_dest) by {
                            match cl[w].details {
                                ConfigPoolLinkDetails::Actor(n) => {
                                    assert(names_pool(c, n));
                                    assert(e2.world.actors@[id].pool_spec(n) is Some);
                                },
                            }
                        }
                        lemma_link_all_some(mid.world.charge_pools@, nl);
                    }
                }
                give_role.lemma_abilities_refusal_configs(mid, rc.abilities@.len());
            }
            assert forall|k: ID| #[trigger] mid.world.is_player(k) == (e0.world.is_player(k) || k == id) by {}
            assert forall|k: ID| #[trigger] mid.world.is_player(k) && k != id implies mid.world.player(k).role == e0.world.player(k).role by {
                assert(mid.world.actors@[k].actor_type == e1.world.actors@[k].actor_type);
            }
        }
        proof {
            assert(crate::action::comms::lounge::create_lounge::player_refusal(mid, id) is None);
            assert(give_role.role_config(mid) == c.role_spec(self.starting_role)->0);
            if c.role_spec(self.starting_role) is Some {
                let na = give_role.role_config(mid).abilities@.len();
                assert(give_role.abilities_refusal(mid, true, na) is Some == role_unconfigured(c, self.starting_role));
                if !role_unconfigured(c, self.starting_role) {
                    let w = exists|k: ID| #[trigger] e0.world.is_player(k) && c.role_spec(e0.world.player(k).role) is None;
                    if w {
                        let k = choose|k: ID| #[trigger] e0.world.is_player(k) && c.role_spec(e0.world.player(k).role) is None;
                        assert(mid.world.is_player(k));
                        assert(k != id);
                        assert(!crate::action::give_role::roles_configured_with(mid, id, self.starting_role));
                    } else {
                        assert forall|k: ID| #[trigger] mid.world.is_player(k) implies c.role_spec(if k == id { self.starting_role } else { mid.world.player(k).role }) is Some by {
                            if k != id {
                                assert(e0.world.is_player(k));
                            }
                        }
                    }
                }
            }
            assert(give_role.refusal(mid, *actor, true) == self.refusal(e0, *actor, true));
        }
        give_role.handle(eng, ctx, actor, version, true)?;
        proof {
            assert(give_role.given(mid, *eng));
            assert(mid.world.abilities.next_key() == a0 + us.len());
            assert(eng.world.actors@.dom() =~= e0.world.actors@.dom().insert(id));
            assert forall|k: ID| k != id && #[trigger] e0.world.actors@.contains_key(k)
                implies eng.world.actors@[k].actor_type == e0.world.actors@[k].actor_type by {
                assert(e1.world.actors@.contains_key(k));
                assert(mid.world.actors@.contains_key(k));
                assert(mid.world.actors@[k].actor_type == e1.world.actors@[k].actor_type);
            }
            assert forall|k: ID| #[trigger] eng.world.is_player(k) && eng.world.player(k).true_name@ == self.true_name@
                implies k == id by {
                if k != id {
                    assert(mid.world.actors@.contains_key(k));
                    assert(e1.world.actors@.contains_key(k));
                    assert(mid.world.actors@[k].actor_type == e1.world.actors@[k].actor_type);
                    assert(e0.world.is_player(k));
                    assert(e0.world.name_taken(self.true_name@));
                }
            }
            assert(!e0.world.actors@.contains_key(id));
            assert(eng.world.is_player(id));
            assert(eng.world.player(id).true_name@ == self.true_name@);
            assert(eng.world.actors@[id].pool_map == e2.world.actors@[id].pool_map);
            assert(eng.world.charge_pools@.dom() == e2.world.charge_pools@.dom());
            assert forall|n: PoolName| #[trigger] eng.world.actors@[id].pool_spec(n) is Some implies eng.world.charge_pools@.contains_key(eng.world.actors@[id].pool_spec(n)->0) by {
                assert(eng.world.actors@[id].pool_spec(n) == e2.world.actors@[id].pool_spec(n));
            }
            assert forall|n: PoolName| #[trigger] names_pool(c, n) implies eng.world.actors@[id].pool_spec(n) is Some by {
                assert(eng.world.actors@[id].pool_spec(n) == e2.world.actors@[id].pool_spec(n));
            }
            assert forall|q: int| 0 <= q < us.len() implies {
                let a = #[trigger] eng.world.abilities@[(a0 + q) as ID];
                &&& eng.world.abilities@.contains_key((a0 + q) as ID)
                &&& a.ownership_struct == (OwnershipStruct { owner: Some(id), transferrable: false, volatile: false })
                &&& kind_of(a) == us[q]
            } by {
                let k = (a0 + q) as ID;
                assert(mid.world.abilities@.contains_key(k));
                assert(!crate::action::actor::purge_volatiles::purged_ability(mid, id, k));
            }
        }
        Ok(ActionResponse::AddPlayer(AddPlayerResponse { id }))
    }
}

} // verus!
