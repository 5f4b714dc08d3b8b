use vstd::prelude::*;

use crate::action::engine::null::Null;
use crate::action::{CommandPacket, Action, ActionActor, ActionContext, ActionError, ActionRequest, ActionResponse, ActionResult};
use crate::common::{Time, Version};
use crate::engine::{Engine, Touched};
use crate::helpers::require_time_not_passed;

verus! {

#[derive(PartialEq, Eq, Structural, Clone, Debug)]
pub struct ScheduleJobResponse {}

/// System action: schedule any request, run by the same actor at a time not yet passed.
/// The payload moves into the schedule: once scheduled, the action holds a null payload.
#[derive(Debug)]
pub struct ScheduleJob {
    pub timestamp: Time,
    pub payload: Box<Action>,
}

impl ScheduleJob {
    /// What the handler does besides answering: its effect on the engine (from `e0` to
    /// `e1`) and on the commands (from `c0` to `c1`), given its answer `r`.
    pub open spec fn effect(
        &self,
        e0: Engine,
        e1: Engine,
        c0: Seq<CommandPacket>,
        c1: Seq<CommandPacket>,
        actor: ActionActor,
        mutate: bool,
        r: ActionResult,
    ) -> bool {
        &&& (e1.wf())
        &&& (c1 =~= c0)
        &&& (e1.only_touches(e0, Touched { jobs: true, ..Touched::nothing() }))
        &&& (r is Err || !mutate ==> e1.unchanged(e0))
        &&& (r is Ok && mutate ==> e1.jobs@ =~= e0.jobs@.push(ActionRequest {
            actor: actor,
            timestamp: self.timestamp,
            payload: *self.payload,
        }))
    }

    /// The answer to a request from `actor`, from the engine before (`e0`) and after (`e1`)
    /// the handler runs.
    pub open spec fn answer(&self, e0: Engine, e1: Engine, actor: ActionActor, mutate: bool) -> ActionResult {
        if !(actor is System) {
            Err::<ActionResponse, ActionError>(ActionError::RequiresSystem)
        } else if self.timestamp < e0.time {
            Err(ActionError::TimePassed)
        } else {
            Ok(ActionResponse::ScheduleJob(ScheduleJobResponse {}))
        }
    }

    pub fn handle(
        &mut self,
        eng: &mut Engine,
        ctx: &mut ActionContext,
        actor: &ActionActor,
        version: Version,
        mutate: bool,
    ) -> (r: ActionResult)
        requires
            old(eng).wf(),
        ensures
            final(eng).wf(),
            final(self).timestamp == old(self).timestamp,
            *final(self).payload == if r is Ok && mutate { Action::Null(Null {}) } else { *old(self).payload },
            final(ctx).commands@ == old(ctx).commands@,
            final(eng).only_touches(*old(eng), Touched { jobs: true, ..Touched::nothing() }),
            r == old(self).answer(*old(eng), *final(eng), *actor, mutate),
            r is Err || !mutate ==> final(eng).unchanged(*old(eng)),
            r is Ok && mutate ==> final(eng).jobs@ == old(eng).jobs@.push(ActionRequest {
                actor: *actor,
                timestamp: old(self).timestamp,
                payload: *old(self).payload,
            }),
            old(self).effect(*old(eng), *final(eng), old(ctx).commands@, final(ctx).commands@, *actor, mutate, r),
    {
        actor.require_system()?;
        require_time_not_passed(eng, self.timestamp)?;
        if mutate {
            let mut payload: Action = Action::Null(Null {});
            std::mem::swap(&mut payload, &mut *self.payload);
            eng.schedule(ActionRequest { actor: *actor, timestamp: self.timestamp, payload });
        }
        Ok(ActionResponse::ScheduleJob(ScheduleJobResponse {}))
    }
}

} // verus!
