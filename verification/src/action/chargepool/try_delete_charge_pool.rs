use vstd::prelude::*;

use crate::action::{CommandPacket, ActionActor, ActionContext, ActionError, ActionResponse, ActionResult};
use crate::common::{ChargePoolKey, Version};
use crate::engine::{Engine, Touched};
use crate::helpers::get_charge_pool;

verus! {

#[derive(PartialEq, Eq, Structural, Clone, Debug)]
pub struct TryDeleteChargePoolResponse {}

/// Admin or system action: delete a charge pool if no link points at it any more.
#[derive(PartialEq, Eq, Structural, Clone, Debug)]
pub struct TryDeleteChargePool {
    pub id: ChargePoolKey,
}

impl TryDeleteChargePool {
    /// What the handler does besides answering: its effect on the engine (from `e0` to
    /// `e1`) and on the commands (from `c0` to `c1`), given its answer `r`.
    pub open spec fn effect(
        &self,
        e0: Engine,
        e1: Engine,
        c0: Seq<CommandPacket>,
        c1: Seq<CommandPacket>,
        actor: ActionActor,
        mutate: bool,
        r: ActionResult,
    ) -> bool {
        &&& (e1.wf())
        &&& (c1 =~= c0)
        &&& (r is Err || !mutate || e0.world.charge_pools@[self.id].ref_count != 0
            ==> e1.unchanged(e0))
        &&& (r is Ok && mutate && e0.world.charge_pools@[self.id].ref_count == 0 ==> {
            &&& e1.world.charge_pools@ =~= e0.world.charge_pools@.remove(self.id)
            &&& e1.only_touches(e0, Touched { charge_pools: true, ..Touched::nothing() })
        })
    }

    /// The answer to a request from `actor`, from the engine before (`e0`) and after (`e1`)
    /// the handler runs.
    pub open spec fn answer(&self, e0: Engine, e1: Engine, actor: ActionActor, mutate: bool) -> ActionResult {
        if !actor.is_admin_or_system() {
            Err::<ActionResponse, ActionError>(ActionError::RequiresAdminOrSystem)
        } else if !e0.world.charge_pools@.contains_key(self.id) {
            Err(ActionError::ChargePoolNotFound)
        } else {
            Ok(ActionResponse::TryDeleteChargePool(TryDeleteChargePoolResponse {}))
        }
    }

    pub fn handle(
        &mut self,
        eng: &mut Engine,
        ctx: &mut ActionContext,
        actor: &ActionActor,
        version: Version,
        mutate: bool,
    ) -> (r: ActionResult)
        requires
            old(eng).wf(),
        ensures
            final(eng).wf(),
            *final(self) == *old(self),
            final(ctx).commands@ == old(ctx).commands@,
            r == old(self).answer(*old(eng), *final(eng), *actor, mutate),
            r is Err || !mutate || old(eng).world.charge_pools@[old(self).id].ref_count != 0
                ==> final(eng).unchanged(*old(eng)),
            r is Ok && mutate && old(eng).world.charge_pools@[old(self).id].ref_count == 0 ==> {
                &&& final(eng).world.charge_pools@ == old(eng).world.charge_pools@.remove(old(self).id)
                &&& final(eng).only_touches(*old(eng), Touched { charge_pools: true, ..Touched::nothing() })
            },
            old(self).effect(*old(eng), *final(eng), old(ctx).commands@, final(ctx).commands@, *actor, mutate, r),
    {
        actor.admin_or_system()?;
        let pool = get_charge_pool(eng, self.id)?;

        if mutate && pool.ref_count == 0 {
            eng.world.charge_pools.remove(self.id);
        }

        Ok(ActionResponse::TryDeleteChargePool(TryDeleteChargePoolResponse {}))
    }
}

} // verus!
