use vstd::prelude::*;

use crate::action::command::Command;
use crate::action::{ActionActor, ActionContext, ActionError, ActionResponse, ActionResult, CommandPacket};
use crate::channel::{ChannelPermission, SenderDisplay};
use crate::common::{ID, Version};
use crate::engine::Engine;
use crate::helpers::{get_channel, player_id};
use crate::indexset::displays_contains;

verus! {

#[derive(PartialEq, Eq, Structural, Clone, Debug)]
pub struct SendMessageResponse {}

/// Player action: send a message to a channel the player may send to, as one of its own
/// displays.  The frontend shows it to whoever may view the channel.
#[derive(PartialEq, Eq, Clone, Debug)]
pub struct SendMessage {
    pub channel_id: ID,
    pub display: SenderDisplay,
    pub content: String,
}

impl SendMessage {
    /// Why the message is refused, if it is.
    pub open spec fn refusal(&self, e: Engine, actor: ActionActor) -> Option<ActionError> {
        let p = actor->Player_0;
        let c = e.world.channels@[self.channel_id];
        if !(actor is Player) {
            Some(ActionError::RequiresPlayer)
        } else if !e.world.channels@.contains_key(self.channel_id) {
            Some(ActionError::ChannelNotFound)
        } else if c.member(p) is None {
            Some(ActionError::NotAChannelMember)
        } else if !c.member(p)->0.perms.has(ChannelPermission::Send) {
            Some(ActionError::InsufficientPermissions)
        } else if !c.member(p)->0.display_list().contains(self.display) {
            Some(ActionError::DisplayNotOwned)
        } else {
            None
        }
    }

    /// What the handler does besides answering: its effect on the engine (from `e0` to
    /// `e1`) and on the commands (from `c0` to `c1`), given its answer `r`.
    pub open spec fn effect(
        &self,
        e0: Engine,
        e1: Engine,
        c0: Seq<CommandPacket>,
        c1: Seq<CommandPacket>,
        actor: ActionActor,
        mutate: bool,
        r: ActionResult,
    ) -> bool {
        &&& (e1 == e0)
        &&& (r is Err ==> c1 =~= c0)
        &&& (r is Ok ==> c1 =~= c0.push(CommandPacket {
            cmd: Command::AddMessage {
                content: self.content,
                channel_id: self.channel_id,
                sender_display: self.display,
            },
            recipient: None,
            timestamp: e0.time,
        }))
    }

    /// The answer to a request from `actor`, from the engine before (`e0`) and after (`e1`)
    /// the handler runs.
    pub open spec fn answer(&self, e0: Engine, e1: Engine, actor: ActionActor, mutate: bool) -> ActionResult {
        match self.refusal(e0, actor) {
            Some(e) => Err::<ActionResponse, ActionError>(e),
            None => Ok(ActionResponse::SendMessage(SendMessageResponse {})),
        }
    }

    pub fn handle(
        &mut self,
        eng: &mut Engine,
        ctx: &mut ActionContext,
        actor: &ActionActor,
        version: Version,
        mutate: bool,
    ) -> (r: ActionResult)
        requires
            old(eng).wf(),
        ensures
            *final(eng) == *old(eng),
            *final(self) == *old(self),
            r == old(self).answer(*old(eng), *final(eng), *actor, mutate),
            r is Err ==> final(ctx).commands@ == old(ctx).commands@,
            r is Ok ==> final(ctx).commands@ == old(ctx).commands@.push(CommandPacket {
                cmd: Command::AddMessage {
                    content: old(self).content,
                    channel_id: old(self).channel_id,
                    sender_display: old(self).display,
                },
                recipient: None,
                timestamp: old(eng).time,
            }),
            old(self).effect(*old(eng), *final(eng), old(ctx).commands@, final(ctx).commands@, *actor, mutate, r),
    {
        actor.player_only()?;
        let id: ID = player_id(actor).unwrap();

        let channel = get_channel(eng, self.channel_id)?;
        let member_data = match channel.get_member(id) {
            Some(m) => m,
            None => {
                return Err(ActionError::NotAChannelMember);
            },
        };
        if !member_data.perms.contains(ChannelPermission::Send) {
            return Err(ActionError::InsufficientPermissions);
        }
        if !displays_contains(&member_data.displays, &self.display) {
            return Err(ActionError::DisplayNotOwned);
        }

        // Relaying to bugs on loggable channels is not part of this library.
        ctx.push_cmd(
            Command::AddMessage { content: self.content.clone(), channel_id: self.channel_id, sender_display: self.display },
            None,
            eng.time,
        );
        Ok(ActionResponse::SendMessage(SendMessageResponse {}))
    }
}

} // verus!
