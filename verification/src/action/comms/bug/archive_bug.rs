use vstd::prelude::*;

use crate::action::command::Command;
use crate::action::{ActionActor, ActionContext, ActionError, ActionResponse, ActionResult, CommandPacket};
use crate::bug::Bug;
use crate::common::{BugKey, Version};
use crate::engine::{Engine, Touched};
use crate::helpers::get_bug;

verus! {

#[derive(PartialEq, Eq, Structural, Clone, Debug)]
pub struct ArchiveBugResponse {}

/// Admin or system action: archive (disable) a bug and tell the frontend.
#[derive(PartialEq, Eq, Structural, Clone, Debug)]
pub struct ArchiveBug {
    pub bug_id: BugKey,
}

impl ArchiveBug {
    /// What the handler does besides answering: its effect on the engine (from `e0` to
    /// `e1`) and on the commands (from `c0` to `c1`), given its answer `r`.
    pub open spec fn effect(
        &self,
        e0: Engine,
        e1: Engine,
        c0: Seq<CommandPacket>,
        c1: Seq<CommandPacket>,
        actor: ActionActor,
        mutate: bool,
        r: ActionResult,
    ) -> bool {
        &&& (e1.wf())
        &&& (e1.only_touches(e0, Touched { bugs: true, ..Touched::nothing() }))
        &&& (!mutate || r is Err ==> e1.unchanged(e0))
        &&& (r is Err ==> c1 =~= c0)
        &&& (r is Ok ==> c1 =~= c0.push(CommandPacket {
            cmd: Command::ArchiveBug { bug_key: self.bug_id },
            recipient: None,
            timestamp: e0.time,
        }))
        &&& (mutate && r is Ok ==> e1.world.bugs@ =~= e0.world.bugs@.insert(
            self.bug_id,
            Bug { enabled: false, ..e0.world.bugs@[self.bug_id] },
        ))
    }

    /// The answer to a request from `actor`, from the engine before (`e0`) and after (`e1`)
    /// the handler runs.
    pub open spec fn answer(&self, e0: Engine, e1: Engine, actor: ActionActor, mutate: bool) -> ActionResult {
        if !actor.is_admin_or_system() {
            Err::<ActionResponse, ActionError>(ActionError::RequiresAdminOrSystem)
        } else if !e0.world.bugs@.contains_key(self.bug_id) {
            Err(ActionError::BugNotFound)
        } else {
            Ok(ActionResponse::ArchiveBug(ArchiveBugResponse {}))
        }
    }

    pub fn handle(
        &mut self,
        eng: &mut Engine,
        ctx: &mut ActionContext,
        actor: &ActionActor,
        version: Version,
        mutate: bool,
    ) -> (r: ActionResult)
        requires
            old(eng).wf(),
        ensures
            final(eng).wf(),
            *final(self) == *old(self),
            final(eng).only_touches(*old(eng), Touched { bugs: true, ..Touched::nothing() }),
            !mutate || r is Err ==> final(eng).unchanged(*old(eng)),
            r == old(self).answer(*old(eng), *final(eng), *actor, mutate),
            r is Err ==> final(ctx).commands@ == old(ctx).commands@,
            r is Ok ==> final(ctx).commands@ == old(ctx).commands@.push(CommandPacket {
                cmd: Command::ArchiveBug { bug_key: old(self).bug_id },
                recipient: None,
                timestamp: old(eng).time,
            }),
            mutate && r is Ok ==> final(eng).world.bugs@ == old(eng).world.bugs@.insert(
                old(self).bug_id,
                Bug { enabled: false, ..old(eng).world.bugs@[old(self).bug_id] },
            ),
            old(self).effect(*old(eng), *final(eng), old(ctx).commands@, final(ctx).commands@, *actor, mutate, r),
    {
        actor.admin_or_system()?;
        let _ = get_bug(eng, self.bug_id)?;
        if mutate {
            let mut bug: Bug = eng.world.bugs.take(self.bug_id).unwrap();
            bug.enabled = false;
            eng.world.bugs.put(self.bug_id, bug);
        }
        ctx.push_cmd(Command::ArchiveBug { bug_key: self.bug_id }, None, eng.time);
        Ok(ActionResponse::ArchiveBug(ArchiveBugResponse {}))
    }
}

} // verus!
