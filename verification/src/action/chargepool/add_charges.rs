use vstd::prelude::*;

use crate::action::{CommandPacket, ActionActor, ActionContext, ActionError, ActionResponse, ActionResult};
use crate::chargepool::ChargePool;
use crate::common::{ChargeCount, ID, Version};
use crate::engine::{Engine, Touched};
use crate::helpers::get_charge_pool;

verus! {

#[derive(PartialEq, Eq, Structural, Clone, Debug)]
pub struct AddChargesResponse {}

/// System action: add charges to a pool.
#[derive(PartialEq, Eq, Structural, Clone, Debug)]
pub struct AddCharges {
    pub id: ID,
    pub charges: ChargeCount,
}

impl AddCharges {
    /// What the handler does besides answering: its effect on the engine (from `e0` to
    /// `e1`) and on the commands (from `c0` to `c1`), given its answer `r`.
    pub open spec fn effect(
        &self,
        e0: Engine,
        e1: Engine,
        c0: Seq<CommandPacket>,
        c1: Seq<CommandPacket>,
        actor: ActionActor,
        mutate: bool,
        r: ActionResult,
    ) -> bool {
        &&& (e1.wf())
        &&& (c1 =~= c0)
        &&& (r is Err || !mutate ==> e1.unchanged(e0))
        &&& (r is Ok && mutate ==> {
            let p = e0.world.charge_pools@[self.id];
            &&& e1.world.charge_pools@ =~= e0.world.charge_pools@.insert(
                self.id,
                ChargePool {
                    charges: if p.charges + self.charges > ChargeCount::MAX {
                        ChargeCount::MAX
                    } else {
                        (p.charges + self.charges) as ChargeCount
                    },
                    ..p
                },
            )
            &&& e1.only_touches(e0, Touched { charge_pools: true, ..Touched::nothing() })
        })
    }

    /// The answer to a request from `actor`, from the engine before (`e0`) and after (`e1`)
    /// the handler runs.
    pub open spec fn answer(&self, e0: Engine, e1: Engine, actor: ActionActor, mutate: bool) -> ActionResult {
        if !(actor is System) {
            Err::<ActionResponse, ActionError>(ActionError::RequiresSystem)
        } else if !e0.world.charge_pools@.contains_key(self.id) {
            Err(ActionError::ChargePoolNotFound)
        } else {
            Ok(ActionResponse::AddCharges(AddChargesResponse {}))
        }
    }

    pub fn handle(
        &mut self,
        eng: &mut Engine,
        ctx: &mut ActionContext,
        actor: &ActionActor,
        version: Version,
        mutate: bool,
    ) -> (r: ActionResult)
        requires
            old(eng).wf(),
        ensures
            final(eng).wf(),
            *final(self) == *old(self),
            final(ctx).commands@ == old(ctx).commands@,
            r == old(self).answer(*old(eng), *final(eng), *actor, mutate),
            r is Err || !mutate ==> final(eng).unchanged(*old(eng)),
            r is Ok && mutate ==> {
                let p = old(eng).world.charge_pools@[old(self).id];
                &&& final(eng).world.charge_pools@ == old(eng).world.charge_pools@.insert(
                    old(self).id,
                    ChargePool {
                        charges: if p.charges + old(self).charges > ChargeCount::MAX {
                            ChargeCount::MAX
                        } else {
                            (p.charges + old(self).charges) as ChargeCount
                        },
                        ..p
                    },
                )
                &&& final(eng).only_touches(*old(eng), Touched { charge_pools: true, ..Touched::nothing() })
            },
            old(self).effect(*old(eng), *final(eng), old(ctx).commands@, final(ctx).commands@, *actor, mutate, r),
    {
        actor.require_system()?;

        let _ = get_charge_pool(eng, self.id)?;
        if mutate {
            let mut pool: ChargePool = *get_charge_pool(eng, self.id)?;
            pool.add_charges(self.charges);
            eng.world.charge_pools.put(self.id, pool);
        }

        Ok(ActionResponse::AddCharges(AddChargesResponse {}))
    }
}

} // verus!
