use vstd::prelude::*;

use crate::action::actor::player::kill::Kill;
use crate::action::actor::player::notebook_scheduled_kill::NotebookScheduledKill;
use crate::action::{CommandPacket, Action, ActionActor, ActionContext, ActionError, ActionRequest, ActionResponse, ActionResult};
use crate::common::{Time, Version};
use crate::engine::{Engine, Touched};
use crate::helpers::require_time_not_passed;

verus! {

#[derive(PartialEq, Eq, Structural, Clone, Debug)]
pub struct ScheduleKillResponse {}

/// System action: schedule a kill, run by the system at a time not yet passed, as a plain
/// kill or as one that a notebook scheduled.
#[derive(PartialEq, Eq, Clone, Debug)]
pub struct ScheduleKill {
    pub timestamp: Time,
    pub kill: Kill,
    pub notebook_scheduled: bool,
}

impl ScheduleKill {
    /// The request that the kill is scheduled as.
    pub open spec fn job(&self) -> ActionRequest {
        ActionRequest {
            actor: ActionActor::System,
            timestamp: self.timestamp,
            payload: if self.notebook_scheduled {
                Action::NotebookScheduledKill(NotebookScheduledKill { kill: self.kill })
            } else {
                Action::Kill(self.kill)
            },
        }
    }

    /// What the handler does besides answering: its effect on the engine (from `e0` to
    /// `e1`) and on the commands (from `c0` to `c1`), given its answer `r`.
    pub open spec fn effect(
        &self,
        e0: Engine,
        e1: Engine,
        c0: Seq<CommandPacket>,
        c1: Seq<CommandPacket>,
        actor: ActionActor,
        mutate: bool,
        r: ActionResult,
    ) -> bool {
        &&& (e1.wf())
        &&& (c1 =~= c0)
        &&& (e1.only_touches(e0, Touched { jobs: true, ..Touched::nothing() }))
        &&& (r is Err || !mutate ==> e1.unchanged(e0))
        &&& (r is Ok && mutate ==> e1.jobs@ =~= e0.jobs@.push(self.job()))
    }

    /// The answer to a request from `actor`, from the engine before (`e0`) and after (`e1`)
    /// the handler runs.
    pub open spec fn answer(&self, e0: Engine, e1: Engine, actor: ActionActor, mutate: bool) -> ActionResult {
        if !(actor is System) {
            Err::<ActionResponse, ActionError>(ActionError::RequiresSystem)
        } else if self.timestamp < e0.time {
            Err(ActionError::TimePassed)
        } else {
            Ok(ActionResponse::ScheduleKill(ScheduleKillResponse {}))
        }
    }

    pub fn handle(
        &mut self,
        eng: &mut Engine,
        ctx: &mut ActionContext,
        actor: &ActionActor,
        version: Version,
        mutate: bool,
    ) -> (r: ActionResult)
        requires
            old(eng).wf(),
        ensures
            final(eng).wf(),
            *final(self) == *old(self),
            final(ctx).commands@ == old(ctx).commands@,
            final(eng).only_touches(*old(eng), Touched { jobs: true, ..Touched::nothing() }),
            r == old(self).answer(*old(eng), *final(eng), *actor, mutate),
            r is Err || !mutate ==> final(eng).unchanged(*old(eng)),
            r is Ok && mutate ==> final(eng).jobs@ == old(eng).jobs@.push(old(self).job()),
            old(self).effect(*old(eng), *final(eng), old(ctx).commands@, final(ctx).commands@, *actor, mutate, r),
    {
        actor.require_system()?;
        require_time_not_passed(eng, self.timestamp)?;
        if mutate {
            let payload = if self.notebook_scheduled {
                Action::NotebookScheduledKill(NotebookScheduledKill { kill: self.kill.duplicate() })
            } else {
                Action::Kill(self.kill.duplicate())
            };
            eng.schedule(ActionRequest { actor: ActionActor::System, timestamp: self.timestamp, payload });
        }
        Ok(ActionResponse::ScheduleKill(ScheduleKillResponse {}))
    }
}

} // verus!
