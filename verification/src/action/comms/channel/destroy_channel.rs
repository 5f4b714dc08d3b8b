use vstd::prelude::*;

use crate::action::command::Command;
use crate::action::{ActionActor, ActionContext, ActionError, ActionResponse, ActionResult, CommandPacket};
use crate::common::{ChannelKey, Version};
use crate::engine::{Engine, Touched};
use crate::helpers::get_channel;

verus! {

#[derive(PartialEq, Eq, Structural, Clone, Debug)]
pub struct DestroyChannelResponse {}

/// System action: remove a channel from the world and tell the frontend.  Whatever refers
/// to the channel (lounges, group chats) is the caller's to clean up first.
#[derive(PartialEq, Eq, Structural, Clone, Debug)]
pub struct DestroyChannel {
    pub channel_id: ChannelKey,
}

impl DestroyChannel {
    /// What the handler does besides answering: its effect on the engine (from `e0` to
    /// `e1`) and on the commands (from `c0` to `c1`), given its answer `r`.
    pub open spec fn effect(
        &self,
        e0: Engine,
        e1: Engine,
        c0: Seq<CommandPacket>,
        c1: Seq<CommandPacket>,
        actor: ActionActor,
        mutate: bool,
        r: ActionResult,
    ) -> bool {
        &&& (e1.wf())
        &&& (e1.only_touches(e0, Touched { channels: true, ..Touched::nothing() }))
        &&& (!mutate || r is Err ==> e1.unchanged(e0))
        &&& (r is Err ==> c1 =~= c0)
        &&& (r is Ok ==> c1 =~= c0.push(CommandPacket {
            cmd: Command::DeleteChannel { channel_id: self.channel_id },
            recipient: None,
            timestamp: e0.time,
        }))
        &&& (mutate && r is Ok ==> e1.world.channels@ =~= e0.world.channels@.remove(self.channel_id)
            && e1.world.channels.next_key() == e0.world.channels.next_key())
    }

    /// The answer to a request from `actor`, from the engine before (`e0`) and after (`e1`)
    /// the handler runs.
    pub open spec fn answer(&self, e0: Engine, e1: Engine, actor: ActionActor, mutate: bool) -> ActionResult {
        if !(actor is System) {
            Err::<ActionResponse, ActionError>(ActionError::RequiresSystem)
        } else if !e0.world.channels@.contains_key(self.channel_id) {
            Err(ActionError::ChannelNotFound)
        } else {
            Ok(ActionResponse::DestroyChannel(DestroyChannelResponse {}))
        }
    }

    pub fn handle(
        &mut self,
        eng: &mut Engine,
        ctx: &mut ActionContext,
        actor: &ActionActor,
        version: Version,
        mutate: bool,
    ) -> (r: ActionResult)
        requires
            old(eng).wf(),
        ensures
            final(eng).wf(),
            *final(self) == *old(self),
            final(eng).only_touches(*old(eng), Touched { channels: true, ..Touched::nothing() }),
            !mutate || r is Err ==> final(eng).unchanged(*old(eng)),
            r == old(self).answer(*old(eng), *final(eng), *actor, mutate),
            r is Err ==> final(ctx).commands@ == old(ctx).commands@,
            r is Ok ==> final(ctx).commands@ == old(ctx).commands@.push(CommandPacket {
                cmd: Command::DeleteChannel { channel_id: old(self).channel_id },
                recipient: None,
                timestamp: old(eng).time,
            }),
            mutate && r is Ok ==> final(eng).world.channels@ == old(eng).world.channels@.remove(old(self).channel_id)
                && final(eng).world.channels.next_key() == old(eng).world.channels.next_key(),
            old(self).effect(*old(eng), *final(eng), old(ctx).commands@, final(ctx).commands@, *actor, mutate, r),
    {
        actor.require_system()?;
        let _ = get_channel(eng, self.channel_id)?;
        if mutate {
            eng.world.channels.remove(self.channel_id);
        }
        ctx.push_cmd(Command::DeleteChannel { channel_id: self.channel_id }, None, eng.time);
        Ok(ActionResponse::DestroyChannel(DestroyChannelResponse {}))
    }
}

} // verus!
