use vstd::prelude::*;

use crate::action::actor::player::kill::{killed, kill_result, Kill};
use crate::action::comms::bug::update_bug_visibilities::all_bug_cmds;
use crate::action::comms::update_contact_channels::contact_channels_hold;
use crate::action::{CommandPacket, ActionActor, ActionContext, ActionError, ActionResponse, ActionResult};
use crate::common::Version;
use crate::engine::{Engine, Touched};

verus! {

#[derive(PartialEq, Eq, Structural, Clone, Debug)]
pub struct NotebookScheduledKillResponse {}

/// System action: a kill that a notebook scheduled, carried out when its time comes (as
/// `Kill` does).
#[derive(PartialEq, Eq, Clone, Debug)]
pub struct NotebookScheduledKill {
    pub kill: Kill,
}

impl NotebookScheduledKill {
    /// What the handler does besides answering: its effect on the engine (from `e0` to
    /// `e1`) and on the commands (from `c0` to `c1`), given its answer `r`.
    pub open spec fn effect(
        &self,
        e0: Engine,
        e1: Engine,
        c0: Seq<CommandPacket>,
        c1: Seq<CommandPacket>,
        actor: ActionActor,
        mutate: bool,
        r: ActionResult,
    ) -> bool {
        &&& (e1.wf())
        &&& (contact_channels_hold(e1, self.kill.target_id))
        &&& (e1.only_touches(e0, Touched { actors: true, abilities: true, channels: true, ..Touched::nothing() }))
        &&& (!mutate ==> e1.unchanged(e0))
        &&& (r is Ok ==> c1 =~= c0 + all_bug_cmds(e1.world, e1.time)->Ok_0)
        &&& (mutate && r is Ok ==> killed(self.kill.target_id, self.kill.killer_id, e0, e1))
    }

    /// The answer to a request from `actor`, from the engine before (`e0`) and after (`e1`)
    /// the handler runs.
    pub open spec fn answer(&self, e0: Engine, e1: Engine, actor: ActionActor, mutate: bool) -> ActionResult {
        match kill_result(self.kill.target_id, e0, e1, actor) {
            Err(e) => Err::<ActionResponse, ActionError>(e),
            Ok(_) => Ok(ActionResponse::NotebookScheduledKill(NotebookScheduledKillResponse {})),
        }
    }

    pub fn handle(
        &mut self,
        eng: &mut Engine,
        ctx: &mut ActionContext,
        actor: &ActionActor,
        version: Version,
        mutate: bool,
    ) -> (r: ActionResult)
        requires
            old(eng).wf(),
            contact_channels_hold(*old(eng), old(self).kill.target_id),
        ensures
            final(eng).wf(),
            *final(self) == *old(self),
            contact_channels_hold(*final(eng), old(self).kill.target_id),
            final(eng).only_touches(*old(eng), Touched { actors: true, abilities: true, channels: true, ..Touched::nothing() }),
            !mutate ==> final(eng).unchanged(*old(eng)),
            r == old(self).answer(*old(eng), *final(eng), *actor, mutate),
            r is Ok ==> final(ctx).commands@ == old(ctx).commands@ + all_bug_cmds(final(eng).world, final(eng).time)->Ok_0,
            mutate && r is Ok ==> killed(old(self).kill.target_id, old(self).kill.killer_id, *old(eng), *final(eng)),
            old(self).effect(*old(eng), *final(eng), old(ctx).commands@, final(ctx).commands@, *actor, mutate, r),
    {
        self.kill.handle(eng, ctx, actor, version, mutate)?;
        Ok(ActionResponse::NotebookScheduledKill(NotebookScheduledKillResponse {}))
    }
}

} // verus!
