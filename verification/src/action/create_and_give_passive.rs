use vstd::prelude::*;

use crate::action::add_passive::AddPassive;
use crate::action::give_passive::{passive_moved, GivePassive};
use crate::action::{CommandPacket, ActionActor, ActionContext, ActionError, ActionResponse, ActionResult};
use crate::common::{ID, Version};
use crate::engine::{Engine, Touched};
use crate::helpers::get_actor;
use crate::ownership::OwnershipStruct;
use crate::passive::{Passive, PassiveType};

verus! {

#[derive(PartialEq, Eq, Structural, Clone, Debug)]
pub struct CreateAndGivePassiveResponse {
    pub id: ID,
}

/// System action: create a passive and give it to an actor.  A dry run answers with id 0.
#[derive(PartialEq, Eq, Structural, Clone, Debug)]
pub struct CreateAndGivePassive {
    pub passive_type: PassiveType,
    pub transferrable: bool,
    pub actor_id: ID,
    pub volatile: bool,
}

impl CreateAndGivePassive {
    /// What the handler does besides answering: its effect on the engine (from `e0` to
    /// `e1`) and on the commands (from `c0` to `c1`), given its answer `r`.
    pub open spec fn effect(
        &self,
        e0: Engine,
        e1: Engine,
        c0: Seq<CommandPacket>,
        c1: Seq<CommandPacket>,
        actor: ActionActor,
        mutate: bool,
        r: ActionResult,
    ) -> bool {
        &&& (e1.wf())
        &&& (c1 =~= c0)
        &&& (e1.only_touches(e0, Touched { actors: true, passives: true, ..Touched::nothing() }))
        &&& (!mutate || r is Err ==> e1.unchanged(e0))
        &&& (mutate && r is Ok ==> {
            let id = e0.world.passives.next_key() as ID;
            &&& id == e0.world.passives.next_key()
            &&& !e0.world.passives@.contains_key(id)
            &&& e1.world.passives@ =~= e0.world.passives@.insert(id, Passive {
                ownership_struct: OwnershipStruct {
                    owner: Some(self.actor_id),
                    transferrable: self.transferrable,
                    volatile: self.volatile,
                },
                passive_type: self.passive_type,
            })
            &&& e1.world.passives.next_key() == e0.world.passives.next_key() + 1
            &&& passive_moved(e0.world.actors@, e1.world.actors@, id, None, self.actor_id)
        })
    }

    /// The answer to a request from `actor`, from the engine before (`e0`) and after (`e1`)
    /// the handler runs.
    pub open spec fn answer(&self, e0: Engine, e1: Engine, actor: ActionActor, mutate: bool) -> ActionResult {
        if !(actor is System) {
            Err::<ActionResponse, ActionError>(ActionError::RequiresSystem)
        } else if !e0.world.actors@.contains_key(self.actor_id) {
            Err(ActionError::ActorNotFound)
        } else {
            Ok(ActionResponse::CreateAndGivePassive(CreateAndGivePassiveResponse {
                id: if mutate { e0.world.passives.next_key() as ID } else { 0 },
            }))
        }
    }

    pub fn handle(
        &mut self,
        eng: &mut Engine,
        ctx: &mut ActionContext,
        actor: &ActionActor,
        version: Version,
        mutate: bool,
    ) -> (r: ActionResult)
        requires
            old(eng).wf(),
        ensures
            final(eng).wf(),
            *final(self) == *old(self),
            final(ctx).commands@ == old(ctx).commands@,
            final(eng).only_touches(*old(eng), Touched { actors: true, passives: true, ..Touched::nothing() }),
            !mutate || r is Err ==> final(eng).unchanged(*old(eng)),
            r == old(self).answer(*old(eng), *final(eng), *actor, mutate),
            mutate && r is Ok ==> {
                let id = old(eng).world.passives.next_key() as ID;
                &&& id == old(eng).world.passives.next_key()
                &&& !old(eng).world.passives@.contains_key(id)
                &&& final(eng).world.passives@ == old(eng).world.passives@.insert(id, Passive {
                    ownership_struct: OwnershipStruct {
                        owner: Some(old(self).actor_id),
                        transferrable: old(self).transferrable,
                        volatile: old(self).volatile,
                    },
                    passive_type: old(self).passive_type,
                })
                &&& final(eng).world.passives.next_key() == old(eng).world.passives.next_key() + 1
                &&& passive_moved(old(eng).world.actors@, final(eng).world.actors@, id, None, old(self).actor_id)
            },
            old(self).effect(*old(eng), *final(eng), old(ctx).commands@, final(ctx).commands@, *actor, mutate, r),
    {
        actor.require_system()?;
        let _ = get_actor(eng, self.actor_id)?;
        let added = (AddPassive { passive_type: self.passive_type, transferrable: self.transferrable }).handle(
            eng,
            ctx,
            actor,
            version,
            mutate,
        )?;
        let id: ID = match added {
            ActionResponse::AddPassive(data) => data.id,
            _ => 0,
        };
        if mutate {
            let ghost e1 = *eng;
            (GivePassive { passive_id: id, actor_id: self.actor_id, volatile: self.volatile }).handle(
                eng,
                ctx,
                actor,
                version,
                mutate,
            )?;
            proof {
                assert(e1.world.actors@ == old(eng).world.actors@);
                assert(e1.world.passives@[id].ownership_struct.owner is None);
                assert(eng.world.passives@ =~= old(eng).world.passives@.insert(id, eng.world.passives@[id]));
            }
        }
        Ok(ActionResponse::CreateAndGivePassive(CreateAndGivePassiveResponse { id }))
    }
}

} // verus!
