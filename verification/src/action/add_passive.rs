use vstd::prelude::*;

use crate::action::{CommandPacket, ActionActor, ActionContext, ActionError, ActionResponse, ActionResult};
use crate::common::{ID, Version};
use crate::engine::{Engine, Touched};
use crate::ownership::OwnershipStruct;
use crate::passive::{Passive, PassiveType};

verus! {

#[derive(PartialEq, Eq, Structural, Clone, Debug)]
pub struct AddPassiveResponse {
    pub id: ID,
}

/// System action: add an unowned passive to the world.  A dry run answers with id 0.
#[derive(PartialEq, Eq, Structural, Clone, Debug)]
pub struct AddPassive {
    pub passive_type: PassiveType,
    pub transferrable: bool,
}

impl AddPassive {
    /// What the handler does besides answering: its effect on the engine (from `e0` to
    /// `e1`) and on the commands (from `c0` to `c1`), given its answer `r`.
    pub open spec fn effect(
        &self,
        e0: Engine,
        e1: Engine,
        c0: Seq<CommandPacket>,
        c1: Seq<CommandPacket>,
        actor: ActionActor,
        mutate: bool,
        r: ActionResult,
    ) -> bool {
        &&& (e1.wf())
        &&& (c1 =~= c0)
        &&& (e1.only_touches(e0, Touched { passives: true, ..Touched::nothing() }))
        &&& (!mutate || r is Err ==> e1.unchanged(e0))
        &&& (mutate && r is Ok ==> {
            let id = e0.world.passives.next_key() as ID;
            &&& id == e0.world.passives.next_key()
            &&& !e0.world.passives@.contains_key(id)
            &&& e1.world.passives@ =~= e0.world.passives@.insert(id, Passive {
                ownership_struct: OwnershipStruct { owner: None, transferrable: self.transferrable, volatile: false },
                passive_type: self.passive_type,
            })
            &&& e1.world.passives.next_key() == e0.world.passives.next_key() + 1
        })
    }

    /// The answer to a request from `actor`, from the engine before (`e0`) and after (`e1`)
    /// the handler runs.
    pub open spec fn answer(&self, e0: Engine, e1: Engine, actor: ActionActor, mutate: bool) -> ActionResult {
        if actor is System {
            Ok(ActionResponse::AddPassive(AddPassiveResponse {
                id: if mutate { e0.world.passives.next_key() as ID } else { 0 },
            }))
        } else {
            Err::<ActionResponse, ActionError>(ActionError::RequiresSystem)
        }
    }

    pub fn handle(
        &mut self,
        eng: &mut Engine,
        ctx: &mut ActionContext,
        actor: &ActionActor,
        version: Version,
        mutate: bool,
    ) -> (r: ActionResult)
        requires
            old(eng).wf(),
        ensures
            final(eng).wf(),
            *final(self) == *old(self),
            final(ctx).commands@ == old(ctx).commands@,
            final(eng).only_touches(*old(eng), Touched { passives: true, ..Touched::nothing() }),
            !mutate || r is Err ==> final(eng).unchanged(*old(eng)),
            r == old(self).answer(*old(eng), *final(eng), *actor, mutate),
            mutate && r is Ok ==> {
                let id = old(eng).world.passives.next_key() as ID;
                &&& id == old(eng).world.passives.next_key()
                &&& !old(eng).world.passives@.contains_key(id)
                &&& final(eng).world.passives@ == old(eng).world.passives@.insert(id, Passive {
                    ownership_struct: OwnershipStruct { owner: None, transferrable: old(self).transferrable, volatile: false },
                    passive_type: old(self).passive_type,
                })
                &&& final(eng).world.passives.next_key() == old(eng).world.passives.next_key() + 1
            },
            old(self).effect(*old(eng), *final(eng), old(ctx).commands@, final(ctx).commands@, *actor, mutate, r),
    {
        actor.require_system()?;
        let id: ID = if mutate {
            let passive = Passive {
                ownership_struct: OwnershipStruct { owner: None, transferrable: self.transferrable, volatile: false },
                passive_type: self.passive_type,
            };
            eng.world.passives.add(passive)
        } else {
            0
        };
        Ok(ActionResponse::AddPassive(AddPassiveResponse { id }))
    }
}

} // verus!
