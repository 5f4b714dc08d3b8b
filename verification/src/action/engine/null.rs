use vstd::prelude::*;

use crate::action::{CommandPacket, ActionActor, ActionContext, ActionResponse, ActionResult};
use crate::common::Version;
use crate::engine::Engine;

verus! {

#[derive(PartialEq, Eq, Structural, Clone, Debug)]
pub struct NullResponse {}

/// An action that does nothing.
#[derive(PartialEq, Eq, Structural, Clone, Debug)]
pub struct Null {}

impl Null {
    /// What the handler does besides answering: its effect on the engine (from `e0` to
    /// `e1`) and on the commands (from `c0` to `c1`), given its answer `r`.
    pub open spec fn effect(
        &self,
        e0: Engine,
        e1: Engine,
        c0: Seq<CommandPacket>,
        c1: Seq<CommandPacket>,
        actor: ActionActor,
        mutate: bool,
        r: ActionResult,
    ) -> bool {
        &&& (e1 == e0)
        &&& (c1 =~= c0)
    }

    /// The answer to a request from `actor`, from the engine before (`e0`) and after (`e1`)
    /// the handler runs.
    pub open spec fn answer(&self, e0: Engine, e1: Engine, actor: ActionActor, mutate: bool) -> ActionResult {
        Ok::<ActionResponse, crate::action::ActionError>(ActionResponse::Null(NullResponse {}))
    }

    pub fn handle(
        &mut self,
        eng: &mut Engine,
        ctx: &mut ActionContext,
        actor: &ActionActor,
        version: Version,
        mutate: bool,
    ) -> (r: ActionResult)
        ensures
            r == old(self).answer(*old(eng), *final(eng), *actor, mutate),
            *final(eng) == *old(eng),
            final(ctx).commands@ == old(ctx).commands@,
            *final(self) == *old(self),
            old(self).effect(*old(eng), *final(eng), old(ctx).commands@, final(ctx).commands@, *actor, mutate, r),
    {
        Ok(ActionResponse::Null(NullResponse {}))
    }
}

} // verus!
