use vstd::prelude::*;

use crate::ability::{kind_of, AbilityBehaviour, AbilityInterface, AbilityPoolLink, AbilityResponse};
use crate::action::actor::player::kill::{kill_effect, killed, kill_refusal, kill_result, looted_to, loots};
use crate::action::comms::update_contact_channels::{
    lemma_contact_channel_stable, lemma_hold_preserved, lemma_refusal_stable,
};
use crate::action::{CommandPacket, ActionActor, ActionContext, ActionError, ActionResponse, ActionResult};
use crate::actor::Modifier;
use crate::chargepool::{ChargePool, PoolLinkType};
use crate::common::{ID, Version};
use crate::engine::{same_actor_types, same_store, Engine, Touched};
use crate::helpers::{actor_id, get_ability, get_ability_config, get_actor, get_charge_pool};
use crate::indexset::{pool_links_clone, pool_links_get_index, pool_links_len};

verus! {

#[derive(PartialEq, PartialOrd, Eq, Ord, Debug, Clone)]
pub struct UseAbilityResponse(pub AbilityResponse);

/// Player or organization action: use an owned ability.  Every limit link must be able
/// to pay; if the ability has pool links, at least one of them must be able to pay; each
/// link that can pay is charged.  An ability without links can be used without end.
#[derive(PartialEq, PartialOrd, Eq, Ord, Debug, Clone)]
pub struct UseAbility {
    pub ability_id: ID,
    pub ability_args: AbilityBehaviour,
}

/// Where a pass over an ability's links stands: the pools as charged so far, whether a
/// pool link could pay, whether there was a pool link at all, and the error met, if any.
pub ghost struct ChargePass {
    pub pools: Map<ID, ChargePool>,
    pub payable_pool: bool,
    pub has_pool_link: bool,
    pub err: Option<ActionError>,
}

/// One link of the pass (charges are taken only when `mutate`).
pub open spec fn charge_step(s: ChargePass, l: AbilityPoolLink, mutate: bool) -> ChargePass {
    let d = l.link.link_dest;
    if s.err is Some {
        s
    } else if !s.pools.contains_key(d) {
        ChargePass { err: Some(ActionError::ChargePoolNotFound), ..s }
    } else {
        let p = s.pools[d];
        let ok = p.charges >= l.link.weight;
        if l.link.link_type is Limit && !ok {
            ChargePass { err: Some(ActionError::AbilityNotEnoughCharges), ..s }
        } else {
            ChargePass {
                pools: if mutate && ok {
                    s.pools.insert(d, ChargePool { charges: (p.charges - l.link.weight) as u32, ..p })
                } else {
                    s.pools
                },
                payable_pool: s.payable_pool || (l.link.link_type is Pool && ok),
                has_pool_link: s.has_pool_link || l.link.link_type is Pool,
                err: None,
            }
        }
    }
}

/// The pass over the links `ls`, in order, starting from the pools `pools`.
pub open spec fn charge_links(pools: Map<ID, ChargePool>, ls: Seq<AbilityPoolLink>, mutate: bool) -> ChargePass
    decreases ls.len(),
{
    if ls.len() == 0 {
        ChargePass { pools, payable_pool: false, has_pool_link: false, err: None }
    } else {
        charge_step(charge_links(pools, ls.drop_last(), mutate), ls.last(), mutate)
    }
}

/// What a finished pass says: its error, or `AbilityNotEnoughCharges` when there were pool
/// links and none could pay.
pub open spec fn charge_verdict(s: ChargePass) -> Option<ActionError> {
    match s.err {
        Some(e) => Some(e),
        None => if s.has_pool_link && !s.payable_pool {
            Some(ActionError::AbilityNotEnoughCharges)
        } else {
            None
        },
    }
}

/// Once the pass over a prefix of the links has met an error, the pass over all of them
/// ends in the same state.
pub proof fn lemma_charge_err_extends(pools: Map<ID, ChargePool>, ls: Seq<AbilityPoolLink>, k: int, mutate: bool)
    requires
        0 <= k <= ls.len(),
        charge_links(pools, ls.take(k), mutate).err is Some,
    ensures
        charge_links(pools, ls, mutate) == charge_links(pools, ls.take(k), mutate),
    decreases ls.len() - k,
{
    if k < ls.len() {
        assert(ls.take(k + 1).drop_last() =~= ls.take(k));
        lemma_charge_err_extends(pools, ls, k + 1, mutate);
    } else {
        assert(ls.take(k) =~= ls);
    }
}

impl UseAbility {
    /// Why the use is refused before any link is looked at, if it is.
    pub open spec fn gate(&self, e: Engine, actor: ActionActor) -> Option<ActionError> {
        let user = actor.acting_id()->0;
        let ab = e.world.abilities@[self.ability_id];
        if !actor.is_player_or_org() {
            Some(ActionError::RequiresPlayerOrOrg)
        } else if !e.world.abilities@.contains_key(self.ability_id) {
            Some(ActionError::AbilityNotFound)
        } else if e.config.ability_spec(kind_of(ab)) is None {
            Some(ActionError::AbilityConfigNotFound)
        } else if !e.world.actors@.contains_key(user) {
            Some(ActionError::ActorNotFound)
        } else if e.config.ability_spec(kind_of(ab))->0.require_presence
            && e.world.actors@[user].has_modifier_spec(Modifier::NoPresence) {
            Some(ActionError::AbilityCategoryBlocked)
        } else if ab.ownership_struct.owner != Some(user) {
            Some(ActionError::AbilityNotOwned)
        } else if ab.ability_name != self.ability_args.name_spec() {
            Some(ActionError::AbilityMismatch)
        } else {
            None
        }
    }

    /// The pass over the ability's links.
    pub open spec fn charges(&self, e: Engine, mutate: bool) -> ChargePass {
        charge_links(e.world.charge_pools@, e.world.abilities@[self.ability_id].links(), mutate)
    }

    /// Why the use is refused before the behaviour runs, if it is.
    pub open spec fn refusal(&self, e: Engine, actor: ActionActor, mutate: bool) -> Option<ActionError> {
        match self.gate(e, actor) {
            Some(err) => Some(err),
            None => charge_verdict(self.charges(e, mutate)),
        }
    }

    /// What the handler does besides answering: its effect on the engine (from `e0` to
    /// `e1`) and on the commands (from `c0` to `c1`), given its answer `r`.
    pub open spec fn effect(
        &self,
        e0: Engine,
        e1: Engine,
        c0: Seq<CommandPacket>,
        c1: Seq<CommandPacket>,
        actor: ActionActor,
        mutate: bool,
        r: ActionResult,
    ) -> bool {
        &&& (e1.wf())
        &&& (e1.only_touches(
            e0,
            Touched { actors: true, abilities: true, charge_pools: true, channels: true, jobs: true, ..Touched::nothing() },
        ))
        &&& (!mutate ==> e1.unchanged(e0))
        &&& (self.gate(e0, actor) is Some ==> e1.unchanged(e0))
        &&& (mutate && self.gate(e0, actor) is None ==> e1.world.charge_pools@ =~= self.charges(
            e0,
            true,
        ).pools)
        &&& (mutate && r is Ok ==> killed(self.ability_args.target(), self.ability_args.killer(actor), e0, e1))
        &&& (self.ability_args is Gun ==> e1.jobs@ =~= e0.jobs@)
        &&& (self.refusal(e0, actor, mutate) is Some ==> c1 =~= c0)
        &&& (r is Ok ==> self.ability_args.cmds_added(c0, c1, e1))
    }

    /// The answer to a request from `actor`, from the engine before (`e0`) and after (`e1`)
    /// the handler runs.
    pub open spec fn answer(&self, e0: Engine, e1: Engine, actor: ActionActor, mutate: bool) -> ActionResult {
        match self.refusal(e0, actor, mutate) {
            Some(e) => Err::<ActionResponse, ActionError>(e),
            None => match kill_result(self.ability_args.target(), e0, e1, ActionActor::System) {
                Err(e) => Err(e),
                Ok(_) => Ok(ActionResponse::UseAbility(UseAbilityResponse(self.ability_args.response()))),
            },
        }
    }

    pub fn handle(
        &mut self,
        eng: &mut Engine,
        ctx: &mut ActionContext,
        actor: &ActionActor,
        version: Version,
        mutate: bool,
    ) -> (r: ActionResult)
        requires
            old(eng).wf(),
            old(self).ability_args.ready(*old(eng)),
        ensures
            final(eng).wf(),
            *final(self) == *old(self),
            final(eng).only_touches(
                *old(eng),
                Touched { actors: true, abilities: true, charge_pools: true, channels: true, jobs: true, ..Touched::nothing() },
            ),
            !mutate ==> final(eng).unchanged(*old(eng)),
            old(self).gate(*old(eng), *actor) is Some ==> final(eng).unchanged(*old(eng)),
            r == old(self).answer(*old(eng), *final(eng), *actor, mutate),
            mutate && old(self).gate(*old(eng), *actor) is None ==> final(eng).world.charge_pools@ == old(self).charges(
                *old(eng),
                true,
            ).pools,
            mutate && r is Ok ==> killed(old(self).ability_args.target(), old(self).ability_args.killer(*actor), *old(eng), *final(eng)),
            old(self).ability_args is Gun ==> final(eng).jobs@ == old(eng).jobs@,
            old(self).refusal(*old(eng), *actor, mutate) is Some ==> final(ctx).commands@ == old(ctx).commands@,
            r is Ok ==> old(self).ability_args.cmds_added(old(ctx).commands@, final(ctx).commands@, *final(eng)),
            old(self).effect(*old(eng), *final(eng), old(ctx).commands@, final(ctx).commands@, *actor, mutate, r),
    {
        actor.require_not_system()?;
        let user: ID = actor_id(actor).unwrap();
        let config = get_ability_config(eng, self.ability_id)?;
        let req_presence: bool = config.require_presence;

        let actor_data = get_actor(eng, user)?;
        if req_presence && actor_data.has_modifier(Modifier::NoPresence) {
            return Err(ActionError::AbilityCategoryBlocked);
        }

        let ability = get_ability(eng, self.ability_id)?;
        if Some(user) != ability.ownership_struct.owner {
            return Err(ActionError::AbilityNotOwned);
        }
        if ability.ability_name != self.ability_args.ability_name() {
            return Err(ActionError::AbilityMismatch);
        }

        let links = pool_links_clone(&ability.pool_links);
        let ghost ls = ability.links();
        let ghost e0 = *eng;
        let n: usize = pool_links_len(&links);
        let mut pool_condition: bool = false;
        let mut has_pool_link: bool = false;
        let mut i: usize = 0;
        while i < n
            invariant
                n == ls.len(),
                i <= n,
                crate::indexset::pool_link_entries(links) == ls,
                eng.world.charge_pools@ == charge_links(e0.world.charge_pools@, ls.take(i as int), mutate).pools,
                charge_links(e0.world.charge_pools@, ls.take(i as int), mutate).err is None,
                pool_condition == charge_links(e0.world.charge_pools@, ls.take(i as int), mutate).payable_pool,
                has_pool_link == charge_links(e0.world.charge_pools@, ls.take(i as int), mutate).has_pool_link,
                eng.world.charge_pools.next_key() == e0.world.charge_pools.next_key(),
                *eng == (Engine { world: crate::engine::World { charge_pools: eng.world.charge_pools, ..e0.world }, ..e0 }),
                !mutate ==> eng.world.charge_pools@ == e0.world.charge_pools@,
                e0 == *old(eng),
                e0.wf(),
                *self == *old(self),
                self.gate(e0, *actor) is None,
                ls == e0.world.abilities@[self.ability_id].links(),
            decreases n - i,
        {
            let l: AbilityPoolLink = pool_links_get_index(&links, i).unwrap();
            proof {
                assert(ls.take(i as int + 1).drop_last() =~= ls.take(i as int));
                assert(ls.take(i as int + 1).last() == l);
            }
            let mut pool: ChargePool = match get_charge_pool(eng, l.link.link_dest) {
                Ok(p) => *p,
                Err(err) => {
                    proof {
                        lemma_charge_err_extends(e0.world.charge_pools@, ls, i as int + 1, mutate);
                    }
                    return Err(err);
                },
            };
            let can_pay: bool = pool.can_use_charges(l.link.weight);
            match l.link.link_type {
                PoolLinkType::Limit => {
                    if !can_pay {
                        proof {
                            lemma_charge_err_extends(e0.world.charge_pools@, ls, i as int + 1, mutate);
                        }
                        return Err(ActionError::AbilityNotEnoughCharges);
                    }
                },
                PoolLinkType::Pool => {
                    has_pool_link = true;
                    if can_pay {
                        pool_condition = true;
                    }
                },
            }
            if mutate && can_pay {
                pool.use_charges(l.link.weight);
                eng.world.charge_pools.put(l.link.link_dest, pool);
            }
            i = i + 1;
        }
        proof {
            assert(ls.take(n as int) =~= ls);
        }
        if has_pool_link && !pool_condition {
            return Err(ActionError::AbilityNotEnoughCharges);
        }

        let ghost e1 = *eng;
        proof {
            assert(same_actor_types(e0.world.actors@, e1.world.actors@));
            lemma_hold_preserved(e0, e1, self.ability_args.target());
            lemma_refusal_stable(e0, e1, self.ability_args.target(), ActionActor::System);
            lemma_contact_channel_stable(e0, e1);
            assert(kill_refusal(self.ability_args.target(), e1, ActionActor::System)
                == kill_refusal(self.ability_args.target(), e0, ActionActor::System));
        }
        let response = self.ability_args.handle(eng, ctx, actor, self.ability_id, version, mutate)?;
        proof {
            let t = self.ability_args.target();
            let k = self.ability_args.killer(*actor);
            if mutate && loots(e1, t, k) {
                let mid = choose|mid: Engine| looted_to(e1, mid, t, k->0) && #[trigger] kill_effect(t, mid, *eng)
                    && same_store(mid.world.abilities, eng.world.abilities);
                assert(looted_to(e0, mid, t, k->0));
            }
        }
        Ok(ActionResponse::UseAbility(UseAbilityResponse(response)))
    }
}

} // verus!
