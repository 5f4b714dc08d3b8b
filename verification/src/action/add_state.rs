use vstd::prelude::*;

use crate::action::actor::add_state::state_added;
use crate::action::{CommandPacket, Action, ActionActor, ActionContext, ActionError, ActionResponse, ActionResult};
use crate::actor::{Actor, Modifier, State};
use crate::common::{ID, Version};
use crate::engine::{lemma_same_actor_types, same_actor_types, Engine, Touched};
use crate::helpers::get_actor;

verus! {

#[derive(PartialEq, Eq, Structural, Clone, Debug)]
pub struct AddStateResponse {}

/// System action: put an actor in a state, with the modifiers the config gives that state
/// (and nothing more: see `crate::action::actor::add_state::AddState` for the action that
/// also brings channels and bugs up to date).
#[derive(PartialEq, Eq, Structural, Clone, Debug)]
pub struct AddState {
    pub actor_id: ID,
    pub state: State,
}

/// The request to put an actor in a state.
pub fn state_addition(actor_id: ID, state: State) -> (a: Action)
    ensures
        a == Action::PlainAddState(AddState { actor_id, state }),
{
    Action::PlainAddState(AddState { actor_id, state })
}

impl AddState {
    /// What the handler does besides answering: its effect on the engine (from `e0` to
    /// `e1`) and on the commands (from `c0` to `c1`), given its answer `r`.
    pub open spec fn effect(
        &self,
        e0: Engine,
        e1: Engine,
        c0: Seq<CommandPacket>,
        c1: Seq<CommandPacket>,
        actor: ActionActor,
        mutate: bool,
        r: ActionResult,
    ) -> bool {
        &&& (e1.wf())
        &&& (c1 =~= c0)
        &&& (e1.only_touches(e0, Touched { actors: true, ..Touched::nothing() }))
        &&& (!mutate || r is Err ==> e1.unchanged(e0))
        &&& (mutate && r is Ok ==> state_added(
            e0.world.actors@,
            e1.world.actors@,
            self.actor_id,
            self.state,
            e0.config.modifiers_spec(self.state),
        ))
    }

    /// The answer to a request from `actor`, from the engine before (`e0`) and after (`e1`)
    /// the handler runs.
    pub open spec fn answer(&self, e0: Engine, e1: Engine, actor: ActionActor, mutate: bool) -> ActionResult {
        if !(actor is System) {
            Err::<ActionResponse, ActionError>(ActionError::RequiresSystem)
        } else if !e0.world.actors@.contains_key(self.actor_id) {
            Err(ActionError::ActorNotFound)
        } else {
            Ok(ActionResponse::PlainAddState(AddStateResponse {}))
        }
    }

    pub fn handle(
        &mut self,
        eng: &mut Engine,
        ctx: &mut ActionContext,
        actor: &ActionActor,
        version: Version,
        mutate: bool,
    ) -> (r: ActionResult)
        requires
            old(eng).wf(),
        ensures
            final(eng).wf(),
            *final(self) == *old(self),
            final(ctx).commands@ == old(ctx).commands@,
            final(eng).only_touches(*old(eng), Touched { actors: true, ..Touched::nothing() }),
            !mutate || r is Err ==> final(eng).unchanged(*old(eng)),
            r == old(self).answer(*old(eng), *final(eng), *actor, mutate),
            mutate && r is Ok ==> state_added(
                old(eng).world.actors@,
                final(eng).world.actors@,
                old(self).actor_id,
                old(self).state,
                old(eng).config.modifiers_spec(old(self).state),
            ),
            old(self).effect(*old(eng), *final(eng), old(ctx).commands@, final(ctx).commands@, *actor, mutate, r),
    {
        actor.require_system()?;
        let modifiers: Vec<Modifier> = eng.config.modifiers_of(self.state);
        let _ = get_actor(eng, self.actor_id)?;
        if mutate {
            let ghost e0 = *eng;
            let mut target: Actor = eng.world.actors.take(self.actor_id).unwrap();
            target.add_state(self.state, modifiers);
            eng.world.actors.put(self.actor_id, target);
            proof {
                assert(eng.world.actors@ =~= e0.world.actors@.insert(self.actor_id, eng.world.actors@[self.actor_id]));
                assert(same_actor_types(e0.world.actors@, eng.world.actors@));
                lemma_same_actor_types(e0.world.actors@, eng.world.actors@);
            }
        }
        Ok(ActionResponse::PlainAddState(AddStateResponse {}))
    }
}

} // verus!
