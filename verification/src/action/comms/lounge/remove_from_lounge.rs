use vstd::prelude::*;

use crate::action::command::Command;
use crate::action::comms::channel::set_member::{member_set, SetMember};
use crate::action::comms::lounge::create_lounge::player_refusal;
use crate::action::{ActionActor, ActionContext, ActionError, ActionResponse, ActionResult, CommandPacket};
use crate::actor::Player;
use crate::channel::ChannelMember;
use crate::common::{ID, Version};
use crate::engine::{lemma_player_replaced, player_replaced, Engine, Touched};
use crate::helpers::{get_lounge, get_player};
use crate::idset::{contains_id, without};

verus! {

#[derive(PartialEq, Eq, Structural, Clone, Debug)]
pub struct RemoveFromLoungeResponse {}

/// System action: take a player out of one of its lounges: out of the lounge's channel
/// and out of the player's lounges.
#[derive(PartialEq, Eq, Structural, Clone, Debug)]
pub struct RemoveFromLounge {
    pub lounge_id: ID,
    pub player_id: ID,
}

/// `e1` is `e0` with player `p` out of the channel of lounge `l` and out of the lounge.
pub open spec fn removed_from_lounge(e0: Engine, e1: Engine, p: ID, l: ID) -> bool {
    let c = e0.world.lounges@[l].channel_id;
    &&& e1.world.channels@ == e0.world.channels@.insert(c, e1.world.channels@[c])
    &&& member_set(e0.world.channels@[c], e1.world.channels@[c], p, None)
    &&& player_replaced(
        e0.world.actors@,
        e1.world.actors@,
        p,
        Player { lounges: e1.world.player(p).lounges, ..e0.world.player(p) },
    )
    &&& e1.world.player(p).lounges@ == without(e0.world.player(p).lounges@, l)
}

impl RemoveFromLounge {
    /// Why the player is not taken out, if it is not.
    pub open spec fn refusal(&self, e: Engine, actor: ActionActor) -> Option<ActionError> {
        if !(actor is System) {
            Some(ActionError::RequiresSystem)
        } else if player_refusal(e, self.player_id) is Some {
            player_refusal(e, self.player_id)
        } else if !e.world.player(self.player_id).lounges@.contains(self.lounge_id) {
            Some(ActionError::PlayerNotInLounge)
        } else if !e.world.lounges@.contains_key(self.lounge_id) {
            Some(ActionError::LoungeNotFound)
        } else if !e.world.channels@.contains_key(e.world.lounges@[self.lounge_id].channel_id) {
            Some(ActionError::ChannelNotFound)
        } else {
            None
        }
    }

    /// What the handler does besides answering: its effect on the engine (from `e0` to
    /// `e1`) and on the commands (from `c0` to `c1`), given its answer `r`.
    pub open spec fn effect(
        &self,
        e0: Engine,
        e1: Engine,
        c0: Seq<CommandPacket>,
        c1: Seq<CommandPacket>,
        actor: ActionActor,
        mutate: bool,
        r: ActionResult,
    ) -> bool {
        &&& (e1.wf())
        &&& (e1.only_touches(e0, Touched { actors: true, channels: true, ..Touched::nothing() }))
        &&& (!mutate || r is Err ==> e1.unchanged(e0))
        &&& (r is Err ==> c1 =~= c0)
        &&& (r is Ok ==> {
            let c = e0.world.lounges@[self.lounge_id].channel_id;
            c1 =~= c0.push(CommandPacket {
                cmd: Command::RemoveChannel { channel_id: c },
                recipient: Some(self.player_id),
                timestamp: e0.time,
            })
        })
        &&& (mutate && r is Ok ==> removed_from_lounge(e0, e1, self.player_id, self.lounge_id))
    }

    /// The answer to a request from `actor`, from the engine before (`e0`) and after (`e1`)
    /// the handler runs.
    pub open spec fn answer(&self, e0: Engine, e1: Engine, actor: ActionActor, mutate: bool) -> ActionResult {
        match self.refusal(e0, actor) {
            Some(e) => Err::<ActionResponse, ActionError>(e),
            None => Ok(ActionResponse::RemoveFromLounge(RemoveFromLoungeResponse {})),
        }
    }

    pub fn handle(
        &mut self,
        eng: &mut Engine,
        ctx: &mut ActionContext,
        actor: &ActionActor,
        version: Version,
        mutate: bool,
    ) -> (r: ActionResult)
        requires
            old(eng).wf(),
        ensures
            final(eng).wf(),
            *final(self) == *old(self),
            final(eng).only_touches(*old(eng), Touched { actors: true, channels: true, ..Touched::nothing() }),
            !mutate || r is Err ==> final(eng).unchanged(*old(eng)),
            r == old(self).answer(*old(eng), *final(eng), *actor, mutate),
            r is Err ==> final(ctx).commands@ == old(ctx).commands@,
            r is Ok ==> {
                let c = old(eng).world.lounges@[old(self).lounge_id].channel_id;
                final(ctx).commands@ == old(ctx).commands@.push(CommandPacket {
                    cmd: Command::RemoveChannel { channel_id: c },
                    recipient: Some(old(self).player_id),
                    timestamp: old(eng).time,
                })
            },
            mutate && r is Ok ==> removed_from_lounge(*old(eng), *final(eng), old(self).player_id, old(self).lounge_id),
            old(self).effect(*old(eng), *final(eng), old(ctx).commands@, final(ctx).commands@, *actor, mutate, r),
    {
        actor.require_system()?;
        let player = get_player(eng, self.player_id)?;
        if !contains_id(&player.lounges, self.lounge_id) {
            return Err(ActionError::PlayerNotInLounge);
        }
        let channel_id: ID = get_lounge(eng, self.lounge_id)?.channel_id;

        let mut set = SetMember { player_id: self.player_id, channel_id, settings: None };
        let ghost c0 = ctx.commands@;
        set.handle(eng, ctx, actor, version, mutate)?;
        assert(ctx.commands@ =~= c0.push(ctx.commands@.last()));

        if mutate {
            let ghost e1 = *eng;
            eng.world.set_player_lounge(self.player_id, self.lounge_id, false);
            proof {
                lemma_player_replaced(e1.world.actors@, eng.world.actors@, self.player_id, eng.world.player(self.player_id));
            }
        }
        Ok(ActionResponse::RemoveFromLounge(RemoveFromLoungeResponse {}))
    }
}

} // verus!
