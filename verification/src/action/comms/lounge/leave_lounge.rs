use vstd::prelude::*;

use crate::action::comms::lounge::remove_from_lounge::{removed_from_lounge, RemoveFromLounge};
use crate::action::{CommandPacket, ActionActor, ActionContext, ActionError, ActionResponse, ActionResult};
use crate::common::{ID, Version};
use crate::engine::{Engine, Touched};
use crate::helpers::player_id;

verus! {

#[derive(PartialEq, Eq, Structural, Clone, Debug)]
pub struct LeaveLoungeResponse {}

/// Player action: leave one of the player's lounges (the system takes it out, see
/// `RemoveFromLounge`).
#[derive(PartialEq, Eq, Structural, Clone, Debug)]
pub struct LeaveLounge {
    pub lounge_id: ID,
}

impl LeaveLounge {
    /// What the handler does besides answering: its effect on the engine (from `e0` to
    /// `e1`) and on the commands (from `c0` to `c1`), given its answer `r`.
    pub open spec fn effect(
        &self,
        e0: Engine,
        e1: Engine,
        c0: Seq<CommandPacket>,
        c1: Seq<CommandPacket>,
        actor: ActionActor,
        mutate: bool,
        r: ActionResult,
    ) -> bool {
        &&& (e1.wf())
        &&& (e1.only_touches(e0, Touched { actors: true, channels: true, ..Touched::nothing() }))
        &&& (!mutate || r is Err ==> e1.unchanged(e0))
        &&& (!(actor is Player) ==> r == Err::<ActionResponse, ActionError>(ActionError::RequiresPlayer))
        &&& (actor matches ActionActor::Player(p) ==> r == match (RemoveFromLounge { lounge_id: self.lounge_id, player_id: p }).refusal(
            e0,
            ActionActor::System,
        ) {
            Some(e) => Err::<ActionResponse, ActionError>(e),
            None => Ok(ActionResponse::LeaveLounge(LeaveLoungeResponse {})),
        })
        &&& (mutate && r is Ok ==> removed_from_lounge(e0, e1, actor->Player_0, self.lounge_id))
    }

    /// The answer to a request from `actor`, from the engine before (`e0`) and after (`e1`)
    /// the handler runs.
    pub open spec fn answer(&self, e0: Engine, e1: Engine, actor: ActionActor, mutate: bool) -> ActionResult {
        if !(actor is Player) {
            Err::<ActionResponse, ActionError>(ActionError::RequiresPlayer)
        } else {
            match (RemoveFromLounge { lounge_id: self.lounge_id, player_id: actor->Player_0 }).refusal(e0, ActionActor::System) {
                Some(e) => Err::<ActionResponse, ActionError>(e),
                None => Ok(ActionResponse::LeaveLounge(LeaveLoungeResponse {})),
            }
        }
    }

    pub fn handle(
        &mut self,
        eng: &mut Engine,
        ctx: &mut ActionContext,
        actor: &ActionActor,
        version: Version,
        mutate: bool,
    ) -> (r: ActionResult)
        requires
            old(eng).wf(),
        ensures
            r == old(self).answer(*old(eng), *final(eng), *actor, mutate),
            final(eng).wf(),
            *final(self) == *old(self),
            final(eng).only_touches(*old(eng), Touched { actors: true, channels: true, ..Touched::nothing() }),
            !mutate || r is Err ==> final(eng).unchanged(*old(eng)),
            !(*actor is Player) ==> r == Err::<ActionResponse, ActionError>(ActionError::RequiresPlayer),
            *actor matches ActionActor::Player(p) ==> r == match (RemoveFromLounge { lounge_id: old(self).lounge_id, player_id: p }).refusal(
                *old(eng),
                ActionActor::System,
            ) {
                Some(e) => Err::<ActionResponse, ActionError>(e),
                None => Ok(ActionResponse::LeaveLounge(LeaveLoungeResponse {})),
            },
            mutate && r is Ok ==> removed_from_lounge(*old(eng), *final(eng), actor->Player_0, old(self).lounge_id),
            old(self).effect(*old(eng), *final(eng), old(ctx).commands@, final(ctx).commands@, *actor, mutate, r),
    {
        actor.player_only()?;
        let id: ID = player_id(actor).unwrap();
        let mut remove = RemoveFromLounge { lounge_id: self.lounge_id, player_id: id };
        remove.handle(eng, ctx, &ActionActor::System, version, mutate)?;
        Ok(ActionResponse::LeaveLounge(LeaveLoungeResponse {}))
    }
}

} // verus!
