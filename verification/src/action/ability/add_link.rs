use vstd::prelude::*;

use crate::ability::{has_link_to, links_after_add, Ability, AbilityPoolLink};
use crate::action::{CommandPacket, ActionActor, ActionContext, ActionError, ActionResponse, ActionResult};
use crate::chargepool::{ChargePool, PoolLink, PoolLinkType};
use crate::common::{ID, LinkWeight, Version};
use crate::engine::{Engine, Touched};
use crate::helpers::{get_ability, get_charge_pool};

verus! {

#[derive(PartialEq, Eq, Structural, Clone, Debug)]
pub struct AddLinkResponse {}

/// System action: link an ability to a charge pool, replacing its link to that pool if it
/// has one; a pool that gains a link records it.
#[derive(PartialEq, Eq, Structural, Clone, Debug)]
pub struct AddLink {
    pub ability_id: ID,
    pub pool_id: ID,
    pub link_type: PoolLinkType,
    pub weight: LinkWeight,
    pub volatile: bool,
}

impl AddLink {
    pub open spec fn link(&self) -> AbilityPoolLink {
        AbilityPoolLink {
            volatile: self.volatile,
            link: PoolLink { link_type: self.link_type, link_dest: self.pool_id, weight: self.weight },
        }
    }

    /// What the handler does besides answering: its effect on the engine (from `e0` to
    /// `e1`) and on the commands (from `c0` to `c1`), given its answer `r`.
    pub open spec fn effect(
        &self,
        e0: Engine,
        e1: Engine,
        c0: Seq<CommandPacket>,
        c1: Seq<CommandPacket>,
        actor: ActionActor,
        mutate: bool,
        r: ActionResult,
    ) -> bool {
        &&& (e1.wf())
        &&& (c1 =~= c0)
        &&& (e1.only_touches(e0, Touched { abilities: true, charge_pools: true, ..Touched::nothing() }))
        &&& (!mutate || r is Err ==> e1.unchanged(e0))
        &&& (mutate && r is Ok ==> {
            let aid = self.ability_id;
            let pid = self.pool_id;
            let a0 = e0.world.abilities@[aid];
            let a1 = e1.world.abilities@[aid];
            let p0 = e0.world.charge_pools@[pid];
            &&& e1.world.abilities@ =~= e0.world.abilities@.insert(aid, a1)
            &&& a1.ownership_struct == a0.ownership_struct
            &&& a1.ability_name == a0.ability_name
            &&& a1.variant == a0.variant
            &&& a1.links() == links_after_add(a0.links(), self.link())
            &&& e1.world.charge_pools@ =~= if has_link_to(a0.links(), pid) {
                e0.world.charge_pools@
            } else {
                e0.world.charge_pools@.insert(pid, ChargePool {
                    ref_count: if p0.ref_count == u64::MAX { u64::MAX } else { (p0.ref_count + 1) as u64 },
                    ..p0
                })
            }
        })
    }

    /// The answer to a request from `actor`, from the engine before (`e0`) and after (`e1`)
    /// the handler runs.
    pub open spec fn answer(&self, e0: Engine, e1: Engine, actor: ActionActor, mutate: bool) -> ActionResult {
        if !(actor is System) {
            Err::<ActionResponse, ActionError>(ActionError::RequiresSystem)
        } else if !e0.world.abilities@.contains_key(self.ability_id) {
            Err(ActionError::AbilityNotFound)
        } else if !e0.world.charge_pools@.contains_key(self.pool_id) {
            Err(ActionError::ChargePoolNotFound)
        } else {
            Ok(ActionResponse::AddLink(AddLinkResponse {}))
        }
    }

    pub fn handle(
        &mut self,
        eng: &mut Engine,
        ctx: &mut ActionContext,
        actor: &ActionActor,
        version: Version,
        mutate: bool,
    ) -> (r: ActionResult)
        requires
            old(eng).wf(),
        ensures
            final(eng).wf(),
            *final(self) == *old(self),
            final(ctx).commands@ == old(ctx).commands@,
            final(eng).only_touches(*old(eng), Touched { abilities: true, charge_pools: true, ..Touched::nothing() }),
            !mutate || r is Err ==> final(eng).unchanged(*old(eng)),
            r == old(self).answer(*old(eng), *final(eng), *actor, mutate),
            mutate && r is Ok ==> {
                let aid = old(self).ability_id;
                let pid = old(self).pool_id;
                let a0 = old(eng).world.abilities@[aid];
                let a1 = final(eng).world.abilities@[aid];
                let p0 = old(eng).world.charge_pools@[pid];
                &&& final(eng).world.abilities@ == old(eng).world.abilities@.insert(aid, a1)
                &&& a1.ownership_struct == a0.ownership_struct
                &&& a1.ability_name == a0.ability_name
                &&& a1.variant == a0.variant
                &&& a1.links() == links_after_add(a0.links(), old(self).link())
                &&& final(eng).world.charge_pools@ == if has_link_to(a0.links(), pid) {
                    old(eng).world.charge_pools@
                } else {
                    old(eng).world.charge_pools@.insert(pid, ChargePool {
                        ref_count: if p0.ref_count == u64::MAX { u64::MAX } else { (p0.ref_count + 1) as u64 },
                        ..p0
                    })
                }
            },
            old(self).effect(*old(eng), *final(eng), old(ctx).commands@, final(ctx).commands@, *actor, mutate, r),
    {
        actor.require_system()?;
        let _ = get_ability(eng, self.ability_id)?;
        let _ = get_charge_pool(eng, self.pool_id)?;
        if mutate {
            let mut ability: Ability = eng.world.abilities.take(self.ability_id).unwrap();
            let removed = ability.add_link(self.pool_id, self.link_type, self.weight, self.volatile);
            eng.world.abilities.put(self.ability_id, ability);
            if removed.is_none() {
                let mut pool: ChargePool = eng.world.charge_pools.take(self.pool_id).unwrap();
                pool.on_link();
                eng.world.charge_pools.put(self.pool_id, pool);
            }
            assert(eng.world.abilities@ =~= old(eng).world.abilities@.insert(self.ability_id, eng.world.abilities@[self.ability_id]));
        }
        Ok(ActionResponse::AddLink(AddLinkResponse {}))
    }
}

} // verus!
