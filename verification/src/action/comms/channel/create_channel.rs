use vstd::prelude::*;

use crate::action::{CommandPacket, ActionActor, ActionContext, ActionError, ActionResponse, ActionResult};
use crate::channel::Channel;
use crate::common::{ID, Version};
use crate::engine::{Engine, Touched};

verus! {

#[derive(PartialEq, Eq, Structural, Clone, Debug)]
pub struct CreateChannelResponse {
    pub id: ID,
}

/// System action: create a channel without members.  A dry run answers with id 0.
#[derive(PartialEq, Eq, Structural, Clone, Debug)]
pub struct CreateChannel {
    pub loggable: bool,
}

impl CreateChannel {
    /// What the handler does besides answering: its effect on the engine (from `e0` to
    /// `e1`) and on the commands (from `c0` to `c1`), given its answer `r`.
    pub open spec fn effect(
        &self,
        e0: Engine,
        e1: Engine,
        c0: Seq<CommandPacket>,
        c1: Seq<CommandPacket>,
        actor: ActionActor,
        mutate: bool,
        r: ActionResult,
    ) -> bool {
        &&& (e1.wf())
        &&& (c1 =~= c0)
        &&& (e1.only_touches(e0, Touched { channels: true, ..Touched::nothing() }))
        &&& (!mutate || !(actor is System) ==> e1.unchanged(e0))
        &&& (mutate && actor is System ==> {
            let id = e0.world.channels.next_key() as ID;
            &&& id == e0.world.channels.next_key()
            &&& e1.world.channels@ =~= e0.world.channels@.insert(id, e1.world.channels@[id])
            &&& !e0.world.channels@.contains_key(id)
            &&& e1.world.channels@[id].loggable == self.loggable
            &&& e1.world.channels@[id].members@.len() == 0
            &&& e1.world.channels.next_key() == e0.world.channels.next_key() + 1
        })
    }

    /// The answer to a request from `actor`, from the engine before (`e0`) and after (`e1`)
    /// the handler runs.
    pub open spec fn answer(&self, e0: Engine, e1: Engine, actor: ActionActor, mutate: bool) -> ActionResult {
        if actor is System {
            Ok(ActionResponse::CreateChannel(CreateChannelResponse {
                id: if mutate { e0.world.channels.next_key() as ID } else { 0 },
            }))
        } else {
            Err::<ActionResponse, ActionError>(ActionError::RequiresSystem)
        }
    }

    pub fn handle(
        &mut self,
        eng: &mut Engine,
        ctx: &mut ActionContext,
        actor: &ActionActor,
        version: Version,
        mutate: bool,
    ) -> (r: ActionResult)
        requires
            old(eng).wf(),
        ensures
            final(eng).wf(),
            *final(self) == *old(self),
            final(ctx).commands@ == old(ctx).commands@,
            final(eng).only_touches(*old(eng), Touched { channels: true, ..Touched::nothing() }),
            !mutate || !(*actor is System) ==> final(eng).unchanged(*old(eng)),
            r == old(self).answer(*old(eng), *final(eng), *actor, mutate),
            mutate && *actor is System ==> {
                let id = old(eng).world.channels.next_key() as ID;
                &&& id == old(eng).world.channels.next_key()
                &&& final(eng).world.channels@ == old(eng).world.channels@.insert(id, final(eng).world.channels@[id])
                &&& !old(eng).world.channels@.contains_key(id)
                &&& final(eng).world.channels@[id].loggable == old(self).loggable
                &&& final(eng).world.channels@[id].members@.len() == 0
                &&& final(eng).world.channels.next_key() == old(eng).world.channels.next_key() + 1
            },
            old(self).effect(*old(eng), *final(eng), old(ctx).commands@, final(ctx).commands@, *actor, mutate, r),
    {
        actor.require_system()?;
        let id: ID = if mutate {
            eng.world.channels.add(Channel::new(self.loggable))
        } else {
            0
        };
        Ok(ActionResponse::CreateChannel(CreateChannelResponse { id }))
    }
}

} // verus!
