use vstd::prelude::*;

use crate::action::{CommandPacket, ActionActor, ActionContext, ActionError, ActionResponse, ActionResult};
use crate::common::{ID, Version};
use crate::engine::{Engine, Touched};
use crate::helpers::get_channel;

verus! {

#[derive(PartialEq, Eq, Structural, Clone, Debug)]
pub struct DeleteChannelResponse {}

/// System action: remove a channel from the world.
#[derive(PartialEq, Eq, Structural, Clone, Debug)]
pub struct DeleteChannel {
    pub channel_id: ID,
}

impl DeleteChannel {
    /// What the handler does besides answering: its effect on the engine (from `e0` to
    /// `e1`) and on the commands (from `c0` to `c1`), given its answer `r`.
    pub open spec fn effect(
        &self,
        e0: Engine,
        e1: Engine,
        c0: Seq<CommandPacket>,
        c1: Seq<CommandPacket>,
        actor: ActionActor,
        mutate: bool,
        r: ActionResult,
    ) -> bool {
        &&& (e1.wf())
        &&& (c1 =~= c0)
        &&& (e1.only_touches(e0, Touched { channels: true, ..Touched::nothing() }))
        &&& (!mutate || r is Err ==> e1.unchanged(e0))
        &&& (mutate && r is Ok ==> e1.world.channels@ =~= e0.world.channels@.remove(self.channel_id)
            && e1.world.channels.next_key() == e0.world.channels.next_key())
    }

    /// The answer to a request from `actor`, from the engine before (`e0`) and after (`e1`)
    /// the handler runs.
    pub open spec fn answer(&self, e0: Engine, e1: Engine, actor: ActionActor, mutate: bool) -> ActionResult {
        if !(actor is System) {
            Err::<ActionResponse, ActionError>(ActionError::RequiresSystem)
        } else if !e0.world.channels@.contains_key(self.channel_id) {
            Err(ActionError::ChannelNotFound)
        } else {
            Ok(ActionResponse::DeleteChannel(DeleteChannelResponse {}))
        }
    }

    pub fn handle(
        &mut self,
        eng: &mut Engine,
        ctx: &mut ActionContext,
        actor: &ActionActor,
        version: Version,
        mutate: bool,
    ) -> (r: ActionResult)
        requires
            old(eng).wf(),
        ensures
            final(eng).wf(),
            *final(self) == *old(self),
            final(ctx).commands@ == old(ctx).commands@,
            final(eng).only_touches(*old(eng), Touched { channels: true, ..Touched::nothing() }),
            !mutate || r is Err ==> final(eng).unchanged(*old(eng)),
            r == old(self).answer(*old(eng), *final(eng), *actor, mutate),
            mutate && r is Ok ==> final(eng).world.channels@ == old(eng).world.channels@.remove(old(self).channel_id)
                && final(eng).world.channels.next_key() == old(eng).world.channels.next_key(),
            old(self).effect(*old(eng), *final(eng), old(ctx).commands@, final(ctx).commands@, *actor, mutate, r),
    {
        actor.require_system()?;
        let _ = get_channel(eng, self.channel_id)?;
        if mutate {
            eng.world.channels.remove(self.channel_id);
        }
        Ok(ActionResponse::DeleteChannel(DeleteChannelResponse {}))
    }
}

} // verus!
