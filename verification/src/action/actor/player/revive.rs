use vstd::prelude::*;

use crate::action::actor::remove_state::{state_removed, RemoveState};
use crate::action::comms::update_contact_channels::{contact_channels_hold, contact_perms, contacts_set};
use crate::action::{CommandPacket, ActionActor, ActionContext, ActionError, ActionResponse, ActionResult};
use crate::actor::{Modifier, State};
use crate::common::{ID, Version};
use crate::engine::{Engine, Touched};
use crate::helpers::get_player;

verus! {

#[derive(PartialEq, Eq, Structural, Clone, Debug)]
pub struct ReviveResponse {}

/// Admin or system action: bring a player back to life, that is, take it out of the
/// `Dead` state (with all that `RemoveState` does).
#[derive(PartialEq, Eq, Structural, Clone, Copy, Debug)]
pub struct Revive {
    pub target_id: ID,
}

impl Revive {
    /// Why the action is refused, if it is.
    pub open spec fn refusal(&self, e: Engine, actor: ActionActor) -> Option<ActionError> {
        if !actor.is_admin_or_system() {
            Some(ActionError::RequiresAdminOrSystem)
        } else if !e.world.actors@.contains_key(self.target_id) {
            Some(ActionError::ActorNotFound)
        } else if !e.world.is_player(self.target_id) {
            Some(ActionError::NotAPlayer)
        } else {
            (RemoveState { actor_id: self.target_id, state: State::Dead }).refusal(e, actor)
        }
    }

    /// What the handler does besides answering: its effect on the engine (from `e0` to
    /// `e1`) and on the commands (from `c0` to `c1`), given its answer `r`.
    pub open spec fn effect(
        &self,
        e0: Engine,
        e1: Engine,
        c0: Seq<CommandPacket>,
        c1: Seq<CommandPacket>,
        actor: ActionActor,
        mutate: bool,
        r: ActionResult,
    ) -> bool {
        &&& (e1.wf())
        &&& (c1 =~= c0)
        &&& (contact_channels_hold(e1, self.target_id))
        &&& (e1.only_touches(e0, Touched { actors: true, channels: true, ..Touched::nothing() }))
        &&& (!mutate ==> e1.unchanged(e0))
        &&& (mutate && r is Ok ==> state_removed(
            e0.world.actors@,
            e1.world.actors@,
            self.target_id,
            State::Dead,
        ) && contacts_set(
            e0,
            e1,
            self.target_id,
            contact_perms(e1.world.actors@[self.target_id].has_modifier_spec(Modifier::NoContact)),
        ))
    }

    /// The answer to a request from `actor`, from the engine before (`e0`) and after (`e1`)
    /// the handler runs.
    pub open spec fn answer(&self, e0: Engine, e1: Engine, actor: ActionActor, mutate: bool) -> ActionResult {
        match self.refusal(e0, actor) {
            Some(e) => Err::<ActionResponse, ActionError>(e),
            None => Ok(ActionResponse::Revive(ReviveResponse {})),
        }
    }

    pub fn handle(
        &mut self,
        eng: &mut Engine,
        ctx: &mut ActionContext,
        actor: &ActionActor,
        version: Version,
        mutate: bool,
    ) -> (r: ActionResult)
        requires
            old(eng).wf(),
            contact_channels_hold(*old(eng), old(self).target_id),
        ensures
            final(eng).wf(),
            *final(self) == *old(self),
            final(ctx).commands@ == old(ctx).commands@,
            contact_channels_hold(*final(eng), old(self).target_id),
            final(eng).only_touches(*old(eng), Touched { actors: true, channels: true, ..Touched::nothing() }),
            !mutate ==> final(eng).unchanged(*old(eng)),
            r == old(self).answer(*old(eng), *final(eng), *actor, mutate),
            mutate && r is Ok ==> state_removed(
                old(eng).world.actors@,
                final(eng).world.actors@,
                old(self).target_id,
                State::Dead,
            ) && contacts_set(
                *old(eng),
                *final(eng),
                old(self).target_id,
                contact_perms(final(eng).world.actors@[old(self).target_id].has_modifier_spec(Modifier::NoContact)),
            ),
            old(self).effect(*old(eng), *final(eng), old(ctx).commands@, final(ctx).commands@, *actor, mutate, r),
    {
        actor.admin_or_system()?;
        let _ = get_player(eng, self.target_id)?;
        (RemoveState { actor_id: self.target_id, state: State::Dead }).handle(eng, ctx, actor, version, mutate)?;
        Ok(ActionResponse::Revive(ReviveResponse {}))
    }
}

} // verus!
