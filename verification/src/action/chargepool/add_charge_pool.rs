use vstd::prelude::*;

use crate::action::{CommandPacket, ActionActor, ActionContext, ActionError, ActionResponse, ActionResult};
use crate::chargepool::ChargePool;
use crate::common::{ChargeCount, ID, IterationCount, Version};
use crate::engine::{Engine, Touched};

verus! {

#[derive(PartialEq, Eq, Structural, Clone, Debug)]
pub struct AddChargePoolResponse {
    pub id: ID,
}

/// System action: add a charge pool to the world.
#[derive(PartialEq, Eq, Structural, Clone, Debug)]
pub struct AddChargePool {
    pub base_charges: ChargeCount,
    pub base_reset_time: IterationCount,
}

impl AddChargePool {
    /// What the handler does besides answering: its effect on the engine (from `e0` to
    /// `e1`) and on the commands (from `c0` to `c1`), given its answer `r`.
    pub open spec fn effect(
        &self,
        e0: Engine,
        e1: Engine,
        c0: Seq<CommandPacket>,
        c1: Seq<CommandPacket>,
        actor: ActionActor,
        mutate: bool,
        r: ActionResult,
    ) -> bool {
        &&& (e1.wf())
        &&& (c1 =~= c0)
        &&& (!(actor is System) ==> r == Err::<ActionResponse, ActionError>(ActionError::RequiresSystem))
        &&& (r is Err ==> e1.unchanged(e0))
        &&& (actor is System && !mutate ==> r == Ok::<ActionResponse, ActionError>(
            ActionResponse::AddChargePool(AddChargePoolResponse { id: 0 }),
        ) && e1.unchanged(e0))
        &&& (actor is System && mutate ==> {
            let id = e0.world.charge_pools.next_key() as ID;
            &&& r == Ok::<ActionResponse, ActionError>(ActionResponse::AddChargePool(AddChargePoolResponse { id }))
            &&& !e0.world.charge_pools@.contains_key(id)
            &&& e1.world.charge_pools@ =~= e0.world.charge_pools@.insert(
                id,
                ChargePool {
                    charges: self.base_charges,
                    base_charges: self.base_charges,
                    base_reset_time: self.base_reset_time,
                    ref_count: 0,
                },
            )
            &&& e1.only_touches(e0, Touched { charge_pools: true, ..Touched::nothing() })
        })
    }

    /// On success, the response carries the key of the new pool (0 on a dry run).
    /// The answer to a request from `actor`, from the engine before (`e0`) and after (`e1`)
    /// the handler runs.
    pub open spec fn answer(&self, e0: Engine, e1: Engine, actor: ActionActor, mutate: bool) -> ActionResult {
        if !(actor is System) {
            Err::<ActionResponse, ActionError>(ActionError::RequiresSystem)
        } else {
            Ok(ActionResponse::AddChargePool(AddChargePoolResponse {
                id: if mutate { e0.world.charge_pools.next_key() as ID } else { 0 },
            }))
        }
    }

    pub fn handle(
        &mut self,
        eng: &mut Engine,
        ctx: &mut ActionContext,
        actor: &ActionActor,
        version: Version,
        mutate: bool,
    ) -> (r: ActionResult)
        requires
            old(eng).wf(),
        ensures
            r == old(self).answer(*old(eng), *final(eng), *actor, mutate),
            final(eng).wf(),
            *final(self) == *old(self),
            final(ctx).commands@ == old(ctx).commands@,
            !(*actor is System) ==> r == Err::<ActionResponse, ActionError>(ActionError::RequiresSystem),
            r is Err ==> final(eng).unchanged(*old(eng)),
            *actor is System && !mutate ==> r == Ok::<ActionResponse, ActionError>(
                ActionResponse::AddChargePool(AddChargePoolResponse { id: 0 }),
            ) && final(eng).unchanged(*old(eng)),
            *actor is System && mutate ==> {
                let id = old(eng).world.charge_pools.next_key() as ID;
                &&& r == Ok::<ActionResponse, ActionError>(ActionResponse::AddChargePool(AddChargePoolResponse { id }))
                &&& !old(eng).world.charge_pools@.contains_key(id)
                &&& final(eng).world.charge_pools@ == old(eng).world.charge_pools@.insert(
                    id,
                    ChargePool {
                        charges: old(self).base_charges,
                        base_charges: old(self).base_charges,
                        base_reset_time: old(self).base_reset_time,
                        ref_count: 0,
                    },
                )
                &&& final(eng).only_touches(*old(eng), Touched { charge_pools: true, ..Touched::nothing() })
            },
            old(self).effect(*old(eng), *final(eng), old(ctx).commands@, final(ctx).commands@, *actor, mutate, r),
    {
        actor.require_system()?;

        let id: ID = if mutate {
            let pool = ChargePool::new(self.base_charges, self.base_reset_time);
            eng.world.charge_pools.add(pool)
        } else {
            0
        };

        Ok(ActionResponse::AddChargePool(AddChargePoolResponse { id }))
    }
}

} // verus!
