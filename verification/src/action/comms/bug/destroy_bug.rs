use vstd::prelude::*;

use crate::action::command::Command;
use crate::action::{ActionActor, ActionContext, ActionError, ActionResponse, ActionResult, CommandPacket};
use crate::actor::Player;
use crate::common::{BugKey, Version};
use crate::engine::{lemma_player_replaced, player_replaced, Engine, Touched};
use crate::helpers::get_bug;
use crate::idset::without;

verus! {

#[derive(PartialEq, Eq, Structural, Clone, Debug)]
pub struct DestroyBugResponse {}

/// Admin or system action: remove a bug from the world and from its target's bugs, and
/// tell the frontend.
#[derive(PartialEq, Eq, Structural, Clone, Debug)]
pub struct DestroyBug {
    pub bug_id: BugKey,
}

impl DestroyBug {
    /// What the handler does besides answering: its effect on the engine (from `e0` to
    /// `e1`) and on the commands (from `c0` to `c1`), given its answer `r`.
    pub open spec fn effect(
        &self,
        e0: Engine,
        e1: Engine,
        c0: Seq<CommandPacket>,
        c1: Seq<CommandPacket>,
        actor: ActionActor,
        mutate: bool,
        r: ActionResult,
    ) -> bool {
        &&& (e1.wf())
        &&& (e1.only_touches(e0, Touched { actors: true, bugs: true, ..Touched::nothing() }))
        &&& (!mutate || r is Err ==> e1.unchanged(e0))
        &&& (r is Err ==> c1 =~= c0)
        &&& (r is Ok ==> c1 =~= c0.push(CommandPacket {
            cmd: Command::DeleteBug { bug_id: self.bug_id },
            recipient: None,
            timestamp: e0.time,
        }))
        &&& (mutate && r is Ok ==> {
            let b = self.bug_id;
            let t = e0.world.bugs@[b].target_id;
            &&& e1.world.bugs@ =~= e0.world.bugs@.remove(b)
            &&& e1.world.bugs.next_key() == e0.world.bugs.next_key()
            &&& player_replaced(
                e0.world.actors@,
                e1.world.actors@,
                t,
                Player { bugs: e1.world.player(t).bugs, ..e0.world.player(t) },
            )
            &&& e1.world.player(t).bugs@ =~= without(e0.world.player(t).bugs@, b)
        })
    }

    /// The answer to a request from `actor`, from the engine before (`e0`) and after (`e1`)
    /// the handler runs.
    pub open spec fn answer(&self, e0: Engine, e1: Engine, actor: ActionActor, mutate: bool) -> ActionResult {
        if !actor.is_admin_or_system() {
            Err::<ActionResponse, ActionError>(ActionError::RequiresAdminOrSystem)
        } else if !e0.world.bugs@.contains_key(self.bug_id) {
            Err(ActionError::BugNotFound)
        } else {
            Ok(ActionResponse::DestroyBug(DestroyBugResponse {}))
        }
    }

    pub fn handle(
        &mut self,
        eng: &mut Engine,
        ctx: &mut ActionContext,
        actor: &ActionActor,
        version: Version,
        mutate: bool,
    ) -> (r: ActionResult)
        requires
            old(eng).wf(),
        ensures
            final(eng).wf(),
            *final(self) == *old(self),
            final(eng).only_touches(*old(eng), Touched { actors: true, bugs: true, ..Touched::nothing() }),
            !mutate || r is Err ==> final(eng).unchanged(*old(eng)),
            r == old(self).answer(*old(eng), *final(eng), *actor, mutate),
            r is Err ==> final(ctx).commands@ == old(ctx).commands@,
            r is Ok ==> final(ctx).commands@ == old(ctx).commands@.push(CommandPacket {
                cmd: Command::DeleteBug { bug_id: old(self).bug_id },
                recipient: None,
                timestamp: old(eng).time,
            }),
            mutate && r is Ok ==> {
                let b = old(self).bug_id;
                let t = old(eng).world.bugs@[b].target_id;
                &&& final(eng).world.bugs@ == old(eng).world.bugs@.remove(b)
                &&& final(eng).world.bugs.next_key() == old(eng).world.bugs.next_key()
                &&& player_replaced(
                    old(eng).world.actors@,
                    final(eng).world.actors@,
                    t,
                    Player { bugs: final(eng).world.player(t).bugs, ..old(eng).world.player(t) },
                )
                &&& final(eng).world.player(t).bugs@ == without(old(eng).world.player(t).bugs@, b)
            },
            old(self).effect(*old(eng), *final(eng), old(ctx).commands@, final(ctx).commands@, *actor, mutate, r),
    {
        actor.admin_or_system()?;
        let target: u64 = get_bug(eng, self.bug_id)?.target_id;
        if mutate {
            let ghost e0 = *eng;
            eng.world.set_player_bug(target, self.bug_id, false);
            proof {
                lemma_player_replaced(e0.world.actors@, eng.world.actors@, target, eng.world.player(target));
            }
            eng.world.bugs.remove(self.bug_id);
        }
        ctx.push_cmd(Command::DeleteBug { bug_id: self.bug_id }, None, eng.time);
        Ok(ActionResponse::DestroyBug(DestroyBugResponse {}))
    }
}

} // verus!
