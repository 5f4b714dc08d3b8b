use vstd::prelude::*;

use crate::action::comms::lounge::create_lounge::player_refusal;
use crate::action::{CommandPacket, ActionActor, ActionContext, ActionError, ActionResponse, ActionResult};
use crate::actor::Player;
use crate::common::{ID, Version};
use crate::engine::{lemma_player_replaced, player_replaced, Engine, Touched};
use crate::groupchat::Groupchat;
use crate::helpers::{actor_id, get_gc, get_player};
use crate::idset::without;

verus! {

#[derive(PartialEq, Eq, Structural, Clone, Debug)]
pub struct RemoveFromGroupchatResponse {}

/// System or player action: take a member out of a group chat (and the chat out of the
/// player's group chats).  A player may only do it for a chat it owns.
#[derive(PartialEq, Eq, Structural, Clone, Debug)]
pub struct RemoveFromGroupchat {
    pub groupchat_id: ID,
    pub player_id: ID,
}

impl RemoveFromGroupchat {
    /// Why the member is not taken out, if it is not.
    pub open spec fn refusal(&self, e: Engine, actor: ActionActor) -> Option<ActionError> {
        let g = e.world.groupchats@[self.groupchat_id];
        if !actor.is_player_or_system() {
            Some(ActionError::RequiresPlayerOrSystem)
        } else if !e.world.groupchats@.contains_key(self.groupchat_id) {
            Some(ActionError::GroupchatNotFound)
        } else if actor is Player && g.owner != Some(actor->Player_0) {
            Some(ActionError::NotTheOwner)
        } else if player_refusal(e, self.player_id) is Some {
            player_refusal(e, self.player_id)
        } else if !g.members@.contains(self.player_id) {
            Some(ActionError::PlayerNotInGroupchat)
        } else {
            None
        }
    }

    /// What the handler does besides answering: its effect on the engine (from `e0` to
    /// `e1`) and on the commands (from `c0` to `c1`), given its answer `r`.
    pub open spec fn effect(
        &self,
        e0: Engine,
        e1: Engine,
        c0: Seq<CommandPacket>,
        c1: Seq<CommandPacket>,
        actor: ActionActor,
        mutate: bool,
        r: ActionResult,
    ) -> bool {
        &&& (e1.wf())
        &&& (c1 =~= c0)
        &&& (e1.only_touches(e0, Touched { actors: true, groupchats: true, ..Touched::nothing() }))
        &&& (!mutate || r is Err ==> e1.unchanged(e0))
        &&& (mutate && r is Ok ==> {
            let g = self.groupchat_id;
            let p = self.player_id;
            let gc = e0.world.groupchats@[g];
            &&& e1.world.groupchats@ =~= e0.world.groupchats@.insert(g, e1.world.groupchats@[g])
            &&& e1.world.groupchats@[g] == (Groupchat { members: e1.world.groupchats@[g].members, ..gc })
            &&& e1.world.groupchats@[g].members@ =~= without(gc.members@, p)
            &&& player_replaced(
                e0.world.actors@,
                e1.world.actors@,
                p,
                Player { groupchats: e1.world.player(p).groupchats, ..e0.world.player(p) },
            )
            &&& e1.world.player(p).groupchats@ =~= without(e0.world.player(p).groupchats@, g)
        })
    }

    /// The answer to a request from `actor`, from the engine before (`e0`) and after (`e1`)
    /// the handler runs.
    pub open spec fn answer(&self, e0: Engine, e1: Engine, actor: ActionActor, mutate: bool) -> ActionResult {
        match self.refusal(e0, actor) {
            Some(e) => Err::<ActionResponse, ActionError>(e),
            None => Ok(ActionResponse::RemoveFromGroupchat(RemoveFromGroupchatResponse {})),
        }
    }

    pub fn handle(
        &mut self,
        eng: &mut Engine,
        ctx: &mut ActionContext,
        actor: &ActionActor,
        version: Version,
        mutate: bool,
    ) -> (r: ActionResult)
        requires
            old(eng).wf(),
        ensures
            final(eng).wf(),
            *final(self) == *old(self),
            final(ctx).commands@ == old(ctx).commands@,
            final(eng).only_touches(*old(eng), Touched { actors: true, groupchats: true, ..Touched::nothing() }),
            !mutate || r is Err ==> final(eng).unchanged(*old(eng)),
            r == old(self).answer(*old(eng), *final(eng), *actor, mutate),
            mutate && r is Ok ==> {
                let g = old(self).groupchat_id;
                let p = old(self).player_id;
                let gc = old(eng).world.groupchats@[g];
                &&& final(eng).world.groupchats@ == old(eng).world.groupchats@.insert(g, final(eng).world.groupchats@[g])
                &&& final(eng).world.groupchats@[g] == (Groupchat { members: final(eng).world.groupchats@[g].members, ..gc })
                &&& final(eng).world.groupchats@[g].members@ == without(gc.members@, p)
                &&& player_replaced(
                    old(eng).world.actors@,
                    final(eng).world.actors@,
                    p,
                    Player { groupchats: final(eng).world.player(p).groupchats, ..old(eng).world.player(p) },
                )
                &&& final(eng).world.player(p).groupchats@ == without(old(eng).world.player(p).groupchats@, g)
            },
            old(self).effect(*old(eng), *final(eng), old(ctx).commands@, final(ctx).commands@, *actor, mutate, r),
    {
        actor.player_or_system()?;
        let gc = get_gc(eng, self.groupchat_id)?;
        if actor.is_player() {
            let id: ID = actor_id(actor).unwrap();
            if gc.owner != Some(id) {
                return Err(ActionError::NotTheOwner);
            }
        }
        let _ = get_player(eng, self.player_id)?;
        let gc = get_gc(eng, self.groupchat_id)?;
        if !gc.contains_member(self.player_id) {
            return Err(ActionError::PlayerNotInGroupchat);
        }
        if mutate {
            let mut gc: Groupchat = eng.world.groupchats.take(self.groupchat_id).unwrap();
            gc.remove_member(self.player_id);
            eng.world.groupchats.put(self.groupchat_id, gc);
            let ghost e1 = *eng;
            eng.world.set_player_groupchat(self.player_id, self.groupchat_id, false);
            proof {
                lemma_player_replaced(e1.world.actors@, eng.world.actors@, self.player_id, eng.world.player(self.player_id));
                assert(eng.world.groupchats@ =~= old(eng).world.groupchats@.insert(self.groupchat_id, eng.world.groupchats@[self.groupchat_id]));
            }
        }
        Ok(ActionResponse::RemoveFromGroupchat(RemoveFromGroupchatResponse {}))
    }
}

} // verus!
