use vstd::prelude::*;

use crate::action::command::Command;
use crate::action::{ActionActor, ActionContext, ActionError, ActionResponse, ActionResult, CommandPacket};
use crate::channel::{same_settings, Channel, ChannelMember};
use crate::common::{ID, Time, Version};
use crate::engine::{Engine, Touched};
use crate::helpers::{get_channel, get_player};
use crate::indexset::{display_entries, displays_clone};

verus! {

#[derive(PartialEq, Eq, Structural, Clone, Debug)]
pub struct SetMemberResponse {}

/// System action: make a player a member of a channel with the given settings, or, with
/// no settings, take it out; the player's frontend is told which.
#[derive(PartialEq, Eq, Debug, Clone)]
pub struct SetMember {
    pub player_id: ID,
    pub channel_id: ID,
    pub settings: Option<ChannelMember>,
}

/// Channel `c1` is channel `c0` with player `p` given the settings `s` (taken out with none).
pub open spec fn member_set(c0: Channel, c1: Channel, p: ID, s: Option<ChannelMember>) -> bool {
    &&& c1.loggable == c0.loggable
    &&& same_settings(s, c1.member(p))
    &&& forall|q: ID| q != p ==> #[trigger] c1.member(q) == c0.member(q)
}

/// The command that tells a player's frontend about its settings `s` in channel `c`.
pub open spec fn channel_view_cmd(cmd: Command, c: ID, s: Option<ChannelMember>) -> bool {
    match s {
        Some(m) => cmd matches Command::UpdateChannelView { channel_id, displays, perms }
            && channel_id == c && perms == m.perms && display_entries(displays) == m.display_list(),
        None => cmd == Command::RemoveChannel { channel_id: c },
    }
}

/// The packet that tells player `p` about its settings `s` in channel `c`, sent at `t`.
pub open spec fn channel_view_packet(pk: CommandPacket, p: ID, c: ID, s: Option<ChannelMember>, t: Time) -> bool {
    &&& channel_view_cmd(pk.cmd, c, s)
    &&& pk.recipient == Some(p)
    &&& pk.timestamp == t
}

impl SetMember {
    /// Why the action is refused, if it is.
    pub open spec fn refusal(&self, e: Engine, actor: ActionActor) -> Option<ActionError> {
        if !(actor is System) {
            Some(ActionError::RequiresSystem)
        } else if !e.world.actors@.contains_key(self.player_id) {
            Some(ActionError::ActorNotFound)
        } else if !e.world.is_player(self.player_id) {
            Some(ActionError::NotAPlayer)
        } else if !e.world.channels@.contains_key(self.channel_id) {
            Some(ActionError::ChannelNotFound)
        } else {
            None
        }
    }

    /// What the handler does besides answering: its effect on the engine (from `e0` to
    /// `e1`) and on the commands (from `c0` to `c1`), given its answer `r`.
    pub open spec fn effect(
        &self,
        e0: Engine,
        e1: Engine,
        c0: Seq<CommandPacket>,
        c1: Seq<CommandPacket>,
        actor: ActionActor,
        mutate: bool,
        r: ActionResult,
    ) -> bool {
        &&& (e1.wf())
        &&& (e1.only_touches(e0, Touched { channels: true, ..Touched::nothing() }))
        &&& (!mutate || r is Err ==> e1.unchanged(e0))
        &&& (r is Err ==> c1 =~= c0)
        &&& (r is Ok ==> {
            &&& c1.len() == c0.len() + 1
            &&& c1.drop_last() == c0
            &&& channel_view_packet(
                c1.last(),
                self.player_id,
                self.channel_id,
                self.settings,
                e0.time,
            )
        })
        &&& (mutate && r is Ok ==> {
            let c = self.channel_id;
            &&& e1.world.channels@ =~= e0.world.channels@.insert(c, e1.world.channels@[c])
            &&& member_set(e0.world.channels@[c], e1.world.channels@[c], self.player_id, self.settings)
        })
    }

    /// The answer to a request from `actor`, from the engine before (`e0`) and after (`e1`)
    /// the handler runs.
    pub open spec fn answer(&self, e0: Engine, e1: Engine, actor: ActionActor, mutate: bool) -> ActionResult {
        match self.refusal(e0, actor) {
            Some(e) => Err::<ActionResponse, ActionError>(e),
            None => Ok(ActionResponse::SetMember(SetMemberResponse {})),
        }
    }

    pub fn handle(
        &mut self,
        eng: &mut Engine,
        ctx: &mut ActionContext,
        actor: &ActionActor,
        version: Version,
        mutate: bool,
    ) -> (r: ActionResult)
        requires
            old(eng).wf(),
        ensures
            final(eng).wf(),
            *final(self) == *old(self),
            final(eng).only_touches(*old(eng), Touched { channels: true, ..Touched::nothing() }),
            !mutate || r is Err ==> final(eng).unchanged(*old(eng)),
            r == old(self).answer(*old(eng), *final(eng), *actor, mutate),
            r is Err ==> final(ctx).commands@ == old(ctx).commands@,
            r is Ok ==> {
                &&& final(ctx).commands@.len() == old(ctx).commands@.len() + 1
                &&& final(ctx).commands@.drop_last() == old(ctx).commands@
                &&& channel_view_packet(
                    final(ctx).commands@.last(),
                    old(self).player_id,
                    old(self).channel_id,
                    old(self).settings,
                    old(eng).time,
                )
            },
            mutate && r is Ok ==> {
                let c = old(self).channel_id;
                &&& final(eng).world.channels@ == old(eng).world.channels@.insert(c, final(eng).world.channels@[c])
                &&& member_set(old(eng).world.channels@[c], final(eng).world.channels@[c], old(self).player_id, old(self).settings)
            },
            old(self).effect(*old(eng), *final(eng), old(ctx).commands@, final(ctx).commands@, *actor, mutate, r),
    {
        actor.require_system()?;
        let _ = get_player(eng, self.player_id)?;
        let _ = get_channel(eng, self.channel_id)?;

        if mutate {
            let copy: Option<ChannelMember> = match &self.settings {
                Some(m) => Some(m.duplicate()),
                None => None,
            };
            let mut channel: Channel = eng.world.channels.take(self.channel_id).unwrap();
            channel.set_member(self.player_id, copy);
            eng.world.channels.put(self.channel_id, channel);
        }

        let ghost c0 = ctx.commands@;
        match &self.settings {
            Some(member) => {
                ctx.push_cmd(
                    Command::UpdateChannelView {
                        channel_id: self.channel_id,
                        displays: displays_clone(&member.displays),
                        perms: member.perms,
                    },
                    Some(self.player_id),
                    eng.time,
                );
            },
            None => {
                ctx.push_cmd(Command::RemoveChannel { channel_id: self.channel_id }, Some(self.player_id), eng.time);
            },
        }
        assert(ctx.commands@.drop_last() =~= c0);
        Ok(ActionResponse::SetMember(SetMemberResponse {}))
    }
}

} // verus!
