use vstd::prelude::*;

use crate::action::{CommandPacket, ActionActor, ActionContext, ActionError, ActionResponse, ActionResult};
use crate::common::{ID, Version};
use crate::engine::Engine;
use crate::helpers::get_ability;

verus! {

#[derive(PartialEq, Eq, Structural, Clone, Debug)]
pub struct TryUpdateBugVisibilityResponse {}

/// Admin or system action, for when a bug ability changes hands: the logs of its bugs
/// move from the old owner to the new one.  Nothing is to be done for other abilities;
/// the log protocol itself lives in the frontend, so the engine only checks the request.
#[derive(PartialEq, Eq, Structural, Clone, Debug)]
pub struct TryUpdateBugVisibility {
    pub ability_id: ID,
    pub old_owner: Option<ID>,
    pub new_owner: ID,
}

impl TryUpdateBugVisibility {
    /// What the handler does besides answering: its effect on the engine (from `e0` to
    /// `e1`) and on the commands (from `c0` to `c1`), given its answer `r`.
    pub open spec fn effect(
        &self,
        e0: Engine,
        e1: Engine,
        c0: Seq<CommandPacket>,
        c1: Seq<CommandPacket>,
        actor: ActionActor,
        mutate: bool,
        r: ActionResult,
    ) -> bool {
        &&& (e1 == e0)
        &&& (c1 =~= c0)
    }

    /// The answer to a request from `actor`, from the engine before (`e0`) and after (`e1`)
    /// the handler runs.
    pub open spec fn answer(&self, e0: Engine, e1: Engine, actor: ActionActor, mutate: bool) -> ActionResult {
        if !actor.is_admin_or_system() {
            Err::<ActionResponse, ActionError>(ActionError::RequiresAdminOrSystem)
        } else if !e0.world.abilities@.contains_key(self.ability_id) {
            Err(ActionError::AbilityNotFound)
        } else {
            Ok(ActionResponse::TryUpdateBugVisibility(TryUpdateBugVisibilityResponse {}))
        }
    }

    pub fn handle(
        &mut self,
        eng: &mut Engine,
        ctx: &mut ActionContext,
        actor: &ActionActor,
        version: Version,
        mutate: bool,
    ) -> (r: ActionResult)
        requires
            old(eng).wf(),
        ensures
            *final(eng) == *old(eng),
            *final(self) == *old(self),
            final(ctx).commands@ == old(ctx).commands@,
            r == old(self).answer(*old(eng), *final(eng), *actor, mutate),
            old(self).effect(*old(eng), *final(eng), old(ctx).commands@, final(ctx).commands@, *actor, mutate, r),
            old(self).effect(*old(eng), *final(eng), old(ctx).commands@, final(ctx).commands@, *actor, mutate, r),
    {
        actor.admin_or_system()?;
        let _ = get_ability(eng, self.ability_id)?;
        Ok(ActionResponse::TryUpdateBugVisibility(TryUpdateBugVisibilityResponse {}))
    }
}

} // verus!
