use vstd::prelude::*;

use crate::action::command::Command;
use crate::action::comms::groupchat::set_groupchat_owner::{owner_packets, SetGroupchatOwner};
use crate::action::{ActionActor, ActionContext, ActionError, ActionResponse, ActionResult, CommandPacket};
use crate::actor::{Modifier, Player};
use crate::common::{ID, Version};
use crate::engine::{id_inserted, lemma_player_replaced, player_replaced, Engine, Touched};
use crate::groupchat::Groupchat;
use crate::helpers::{actor_id, get_actor, get_gc, get_player};

verus! {

#[derive(PartialEq, Eq, Structural, Clone, Debug)]
pub struct AddToGroupchatResponse {}

/// System or player action: add a player to a group chat (and the chat to the player's
/// group chats), making it the owner if asked.  A player may only add to a chat it owns,
/// and only while it can contact others; nobody can add a player that cannot be contacted.
/// The added player's frontend learns of the chat.  An actor that turns out not to be a
/// player is refused only once it has been put among the chat's members.
#[derive(PartialEq, Eq, Structural, Clone, Debug)]
pub struct AddToGroupchat {
    pub groupchat_id: ID,
    pub player_id: ID,
    pub owner: bool,
}

impl AddToGroupchat {
    /// Why the player is not added, if it is not.
    pub open spec fn refusal(&self, e: Engine, actor: ActionActor) -> Option<ActionError> {
        let g = e.world.groupchats@[self.groupchat_id];
        let actors = e.world.actors@;
        if !actor.is_player_or_system() {
            Some(ActionError::RequiresPlayerOrSystem)
        } else if !e.world.groupchats@.contains_key(self.groupchat_id) {
            Some(ActionError::GroupchatNotFound)
        } else if actor is Player && g.owner != Some(actor->Player_0) {
            Some(ActionError::NotTheOwner)
        } else if actor is Player && actors[actor->Player_0].has_modifier_spec(Modifier::NoContact) {
            Some(ActionError::CannotContact)
        } else if !actors.contains_key(self.player_id) {
            Some(ActionError::ActorNotFound)
        } else if actors[self.player_id].has_modifier_spec(Modifier::NoContact) {
            Some(ActionError::CannotContact)
        } else if !e.world.is_player(self.player_id) {
            Some(ActionError::NotAPlayer)
        } else {
            None
        }
    }

    /// What the handler does besides answering: its effect on the engine (from `e0` to
    /// `e1`) and on the commands (from `c0` to `c1`), given its answer `r`.
    pub open spec fn effect(
        &self,
        e0: Engine,
        e1: Engine,
        c0: Seq<CommandPacket>,
        c1: Seq<CommandPacket>,
        actor: ActionActor,
        mutate: bool,
        r: ActionResult,
    ) -> bool {
        &&& (e1.wf())
        &&& (e1.only_touches(e0, Touched { actors: true, groupchats: true, ..Touched::nothing() }))
        &&& (!mutate || (r is Err && self.refusal(e0, actor) != Some(ActionError::NotAPlayer)) ==> e1.unchanged(e0))
        &&& (mutate && self.refusal(e0, actor) == Some(ActionError::NotAPlayer) ==> {
            let g = self.groupchat_id;
            let gc = e0.world.groupchats@[g];
            &&& e1.only_touches(e0, Touched { groupchats: true, ..Touched::nothing() })
            &&& e1.world.groupchats@ =~= e0.world.groupchats@.insert(g, e1.world.groupchats@[g])
            &&& e1.world.groupchats@[g] == (Groupchat { members: e1.world.groupchats@[g].members, ..gc })
            &&& e1.world.groupchats@[g].members@ =~= id_inserted(gc.members@, self.player_id)
        })
        &&& (r is Err ==> c1 =~= c0)
        &&& (r is Ok ==> {
            let g = self.groupchat_id;
            let gc = e0.world.groupchats@[g];
            c1 =~= c0 + (if self.owner {
                owner_packets(g, gc.owner, Some(self.player_id), e0.time)
            } else {
                Seq::<CommandPacket>::empty()
            }).push(CommandPacket {
                cmd: Command::MapGc { gc_id: g, channel_id: gc.channel_id },
                recipient: Some(self.player_id),
                timestamp: e0.time,
            })
        })
        &&& (mutate && r is Ok ==> {
            let g = self.groupchat_id;
            let p = self.player_id;
            let gc = e0.world.groupchats@[g];
            &&& e1.world.groupchats@ =~= e0.world.groupchats@.insert(g, e1.world.groupchats@[g])
            &&& e1.world.groupchats@[g].channel_id == gc.channel_id
            &&& e1.world.groupchats@[g].owner == if self.owner { Some(p) } else { gc.owner }
            &&& e1.world.groupchats@[g].members@ =~= id_inserted(gc.members@, p)
            &&& player_replaced(
                e0.world.actors@,
                e1.world.actors@,
                p,
                Player { groupchats: e1.world.player(p).groupchats, ..e0.world.player(p) },
            )
            &&& e1.world.player(p).groupchats@ =~= id_inserted(e0.world.player(p).groupchats@, g)
        })
    }

    /// The answer to a request from `actor`, from the engine before (`e0`) and after (`e1`)
    /// the handler runs.
    pub open spec fn answer(&self, e0: Engine, e1: Engine, actor: ActionActor, mutate: bool) -> ActionResult {
        match self.refusal(e0, actor) {
            Some(e) => Err::<ActionResponse, ActionError>(e),
            None => Ok(ActionResponse::AddToGroupchat(AddToGroupchatResponse {})),
        }
    }

    pub fn handle(
        &mut self,
        eng: &mut Engine,
        ctx: &mut ActionContext,
        actor: &ActionActor,
        version: Version,
        mutate: bool,
    ) -> (r: ActionResult)
        requires
            old(eng).wf(),
        ensures
            final(eng).wf(),
            *final(self) == *old(self),
            final(eng).only_touches(*old(eng), Touched { actors: true, groupchats: true, ..Touched::nothing() }),
            !mutate || (r is Err && old(self).refusal(*old(eng), *actor) != Some(ActionError::NotAPlayer))
                ==> final(eng).unchanged(*old(eng)),
            mutate && old(self).refusal(*old(eng), *actor) == Some(ActionError::NotAPlayer) ==> {
                let g = old(self).groupchat_id;
                let gc = old(eng).world.groupchats@[g];
                &&& final(eng).only_touches(*old(eng), Touched { groupchats: true, ..Touched::nothing() })
                &&& final(eng).world.groupchats@ == old(eng).world.groupchats@.insert(g, final(eng).world.groupchats@[g])
                &&& final(eng).world.groupchats@[g] == (Groupchat { members: final(eng).world.groupchats@[g].members, ..gc })
                &&& final(eng).world.groupchats@[g].members@ == id_inserted(gc.members@, old(self).player_id)
            },
            r == old(self).answer(*old(eng), *final(eng), *actor, mutate),
            r is Err ==> final(ctx).commands@ == old(ctx).commands@,
            r is Ok ==> {
                let g = old(self).groupchat_id;
                let gc = old(eng).world.groupchats@[g];
                final(ctx).commands@ == old(ctx).commands@ + (if old(self).owner {
                    owner_packets(g, gc.owner, Some(old(self).player_id), old(eng).time)
                } else {
                    Seq::<CommandPacket>::empty()
                }).push(CommandPacket {
                    cmd: Command::MapGc { gc_id: g, channel_id: gc.channel_id },
                    recipient: Some(old(self).player_id),
                    timestamp: old(eng).time,
                })
            },
            mutate && r is Ok ==> {
                let g = old(self).groupchat_id;
                let p = old(self).player_id;
                let gc = old(eng).world.groupchats@[g];
                &&& final(eng).world.groupchats@ == old(eng).world.groupchats@.insert(g, final(eng).world.groupchats@[g])
                &&& final(eng).world.groupchats@[g].channel_id == gc.channel_id
                &&& final(eng).world.groupchats@[g].owner == if old(self).owner { Some(p) } else { gc.owner }
                &&& final(eng).world.groupchats@[g].members@ == id_inserted(gc.members@, p)
                &&& player_replaced(
                    old(eng).world.actors@,
                    final(eng).world.actors@,
                    p,
                    Player { groupchats: final(eng).world.player(p).groupchats, ..old(eng).world.player(p) },
                )
                &&& final(eng).world.player(p).groupchats@ == id_inserted(old(eng).world.player(p).groupchats@, g)
            },
            old(self).effect(*old(eng), *final(eng), old(ctx).commands@, final(ctx).commands@, *actor, mutate, r),
    {
        actor.player_or_system()?;

        let gc = get_gc(eng, self.groupchat_id)?;
        let channel_id: ID = gc.channel_id;
        if actor.is_player() {
            let id: ID = actor_id(actor).unwrap();
            if gc.owner != Some(id) {
                return Err(ActionError::NotTheOwner);
            }
            let actor_data = get_actor(eng, id)?;
            if actor_data.has_modifier(Modifier::NoContact) {
                return Err(ActionError::CannotContact);
            }
        }

        let target_data = get_actor(eng, self.player_id)?;
        if target_data.has_modifier(Modifier::NoContact) {
            return Err(ActionError::CannotContact);
        }

        if mutate {
            let mut gc: Groupchat = eng.world.groupchats.take(self.groupchat_id).unwrap();
            gc.add_member(self.player_id);
            eng.world.groupchats.put(self.groupchat_id, gc);
            proof {
                assert(eng.world.groupchats@ =~= old(eng).world.groupchats@.insert(self.groupchat_id, eng.world.groupchats@[self.groupchat_id]));
            }
        }
        let _ = get_player(eng, self.player_id)?;

        if mutate {
            let ghost e1 = *eng;
            eng.world.set_player_groupchat(self.player_id, self.groupchat_id, true);
            proof {
                lemma_player_replaced(e1.world.actors@, eng.world.actors@, self.player_id, eng.world.player(self.player_id));
                assert(eng.world.groupchats@ =~= old(eng).world.groupchats@.insert(self.groupchat_id, eng.world.groupchats@[self.groupchat_id]));
            }
        }

        if self.owner {
            let mut set_owner = SetGroupchatOwner { groupchat_id: self.groupchat_id, owner: Some(self.player_id) };
            set_owner.handle(eng, ctx, &ActionActor::System, version, mutate)?;
        }

        ctx.push_cmd(Command::MapGc { gc_id: self.groupchat_id, channel_id }, Some(self.player_id), eng.time);
        Ok(ActionResponse::AddToGroupchat(AddToGroupchatResponse {}))
    }
}

} // verus!
