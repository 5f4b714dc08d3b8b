use vstd::prelude::*;

use crate::action::command::Command;
use crate::action::comms::lounge::create_lounge::player_refusal;
use crate::action::{ActionActor, ActionContext, ActionError, ActionResponse, ActionResult, CommandPacket};
use crate::actor::Modifier;
use crate::common::{ID, Time, Version};
use crate::engine::{Engine, Touched};
use crate::groupchat::Groupchat;
use crate::helpers::{actor_id, get_actor, get_gc, get_player};

verus! {

#[derive(PartialEq, Eq, Structural, Clone, Debug)]
pub struct SetGroupchatOwnerResponse {}

/// System or player action: set (or clear) the owner of a group chat.  A player may only
/// do it for a group chat it owns, and may not hand it to a player that cannot be
/// contacted.  The old owner learns it no longer owns the chat, the new one that it does.
#[derive(PartialEq, Eq, Structural, Clone, Debug)]
pub struct SetGroupchatOwner {
    pub groupchat_id: ID,
    pub owner: Option<ID>,
}

/// The packets that tell the owners of group chat `g` of a change of owner from `from` to
/// `to`, sent at `t`.
pub open spec fn owner_packets(g: ID, from: Option<ID>, to: Option<ID>, t: Time) -> Seq<CommandPacket> {
    let lost = match from {
        Some(o) => if from != to {
            seq![CommandPacket { cmd: Command::GcOwnerStatus { gc_id: g, owner: false }, recipient: Some(o), timestamp: t }]
        } else {
            Seq::<CommandPacket>::empty()
        },
        None => Seq::<CommandPacket>::empty(),
    };
    let gained = match to {
        Some(n) => seq![CommandPacket { cmd: Command::GcOwnerStatus { gc_id: g, owner: true }, recipient: Some(n), timestamp: t }],
        None => Seq::<CommandPacket>::empty(),
    };
    lost + gained
}

impl SetGroupchatOwner {
    /// Why the owner is not set, if it is not.
    pub open spec fn refusal(&self, e: Engine, actor: ActionActor) -> Option<ActionError> {
        if !actor.is_player_or_system() {
            Some(ActionError::RequiresPlayerOrSystem)
        } else if self.owner is Some && player_refusal(e, self.owner->0) is Some {
            player_refusal(e, self.owner->0)
        } else if self.owner is Some && actor is Player
            && e.world.actors@[self.owner->0].has_modifier_spec(Modifier::NoContact) {
            Some(ActionError::CannotContact)
        } else if !e.world.groupchats@.contains_key(self.groupchat_id) {
            Some(ActionError::GroupchatNotFound)
        } else if actor is Player && e.world.groupchats@[self.groupchat_id].owner != Some(actor->Player_0) {
            Some(ActionError::NotTheOwner)
        } else {
            None
        }
    }

    /// What the handler does besides answering: its effect on the engine (from `e0` to
    /// `e1`) and on the commands (from `c0` to `c1`), given its answer `r`.
    pub open spec fn effect(
        &self,
        e0: Engine,
        e1: Engine,
        c0: Seq<CommandPacket>,
        c1: Seq<CommandPacket>,
        actor: ActionActor,
        mutate: bool,
        r: ActionResult,
    ) -> bool {
        &&& (e1.wf())
        &&& (e1.only_touches(e0, Touched { groupchats: true, ..Touched::nothing() }))
        &&& (!mutate || r is Err ==> e1.unchanged(e0))
        &&& (r is Err ==> c1 =~= c0)
        &&& (r is Ok ==> c1 =~= c0 + owner_packets(
            self.groupchat_id,
            e0.world.groupchats@[self.groupchat_id].owner,
            self.owner,
            e0.time,
        ))
        &&& (mutate && r is Ok ==> {
            let g = self.groupchat_id;
            &&& e1.world.groupchats@ =~= e0.world.groupchats@.insert(g, e1.world.groupchats@[g])
            &&& e1.world.groupchats@[g] == (Groupchat { owner: self.owner, ..e0.world.groupchats@[g] })
        })
    }

    /// The answer to a request from `actor`, from the engine before (`e0`) and after (`e1`)
    /// the handler runs.
    pub open spec fn answer(&self, e0: Engine, e1: Engine, actor: ActionActor, mutate: bool) -> ActionResult {
        match self.refusal(e0, actor) {
            Some(e) => Err::<ActionResponse, ActionError>(e),
            None => Ok(ActionResponse::SetGroupchatOwner(SetGroupchatOwnerResponse {})),
        }
    }

    pub fn handle(
        &mut self,
        eng: &mut Engine,
        ctx: &mut ActionContext,
        actor: &ActionActor,
        version: Version,
        mutate: bool,
    ) -> (r: ActionResult)
        requires
            old(eng).wf(),
        ensures
            final(eng).wf(),
            *final(self) == *old(self),
            final(eng).only_touches(*old(eng), Touched { groupchats: true, ..Touched::nothing() }),
            !mutate || r is Err ==> final(eng).unchanged(*old(eng)),
            r == old(self).answer(*old(eng), *final(eng), *actor, mutate),
            r is Err ==> final(ctx).commands@ == old(ctx).commands@,
            r is Ok ==> final(ctx).commands@ == old(ctx).commands@ + owner_packets(
                old(self).groupchat_id,
                old(eng).world.groupchats@[old(self).groupchat_id].owner,
                old(self).owner,
                old(eng).time,
            ),
            mutate && r is Ok ==> {
                let g = old(self).groupchat_id;
                &&& final(eng).world.groupchats@ == old(eng).world.groupchats@.insert(g, final(eng).world.groupchats@[g])
                &&& final(eng).world.groupchats@[g] == (Groupchat { owner: old(self).owner, ..old(eng).world.groupchats@[g] })
            },
            old(self).effect(*old(eng), *final(eng), old(ctx).commands@, final(ctx).commands@, *actor, mutate, r),
    {
        actor.player_or_system()?;
        match self.owner {
            Some(owner_id) => {
                let _ = get_player(eng, owner_id)?;
                let data = get_actor(eng, owner_id)?;
                if actor.is_player() && data.has_modifier(Modifier::NoContact) {
                    return Err(ActionError::CannotContact);
                }
            },
            None => {},
        }

        let old_owner: Option<ID> = get_gc(eng, self.groupchat_id)?.owner;
        if actor.is_player() {
            let id: ID = actor_id(actor).unwrap();
            if old_owner != Some(id) {
                return Err(ActionError::NotTheOwner);
            }
        }

        if mutate {
            let mut gc: Groupchat = eng.world.groupchats.take(self.groupchat_id).unwrap();
            gc.set_owner(self.owner);
            eng.world.groupchats.put(self.groupchat_id, gc);
            assert(eng.world.groupchats@ =~= old(eng).world.groupchats@.insert(self.groupchat_id, eng.world.groupchats@[self.groupchat_id]));
        }

        let ghost c0 = ctx.commands@;
        let ghost t = eng.time;
        let ghost g = self.groupchat_id;
        match old_owner {
            Some(o) => {
                if old_owner != self.owner {
                    ctx.push_cmd(Command::GcOwnerStatus { gc_id: self.groupchat_id, owner: false }, Some(o), eng.time);
                }
            },
            None => {},
        }
        match self.owner {
            Some(n) => {
                ctx.push_cmd(Command::GcOwnerStatus { gc_id: self.groupchat_id, owner: true }, Some(n), eng.time);
            },
            None => {},
        }
        assert(ctx.commands@ =~= c0 + owner_packets(g, old_owner, self.owner, t));
        Ok(ActionResponse::SetGroupchatOwner(SetGroupchatOwnerResponse {}))
    }
}

} // verus!
