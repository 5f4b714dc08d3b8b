use vstd::prelude::*;

use crate::action::actor::add_state::state_added;
use crate::action::{Action, ActionActor, ActionError, ActionResponse, ActionResult, CommandPacket};
use crate::actor::{Actor, Modifier, State};
use crate::common::ID;
use crate::engine::{lemma_same_actor_types, same_actor_types, Engine, Touched};
use crate::helpers::get_actor;

verus! {

#[derive(PartialEq, Eq, Structural, Clone, Debug)]
pub struct AddStateResponse {}

/// System action, in two steps: `validate` checks the request, and `execute` (only after a
/// successful check) puts the actor in the state, with the modifiers the config gives it.
#[derive(PartialEq, Eq, Structural, Clone, Copy, Debug)]
pub struct AddState {
    pub actor_id: ID,
    pub state: State,
}

/// The request to put an actor in a state.
pub fn state_addition(actor_id: ID, state: State) -> (a: Action)
    ensures
        a == Action::CheckedAddState(AddState { actor_id, state }),
{
    Action::CheckedAddState(AddState { actor_id, state })
}

impl AddState {
    /// Why the request is refused, if it is.
    pub open spec fn refusal(&self, e: Engine, actor: ActionActor) -> Option<ActionError> {
        if !(actor is System) {
            Some(ActionError::RequiresSystem)
        } else if !e.world.actors@.contains_key(self.actor_id) {
            Some(ActionError::ActorNotFound)
        } else {
            None
        }
    }

    /// What the request does besides answering: nothing but the state added on a successful
    /// mutation pass.
    pub open spec fn effect(
        &self,
        e0: Engine,
        e1: Engine,
        c0: Seq<CommandPacket>,
        c1: Seq<CommandPacket>,
        actor: ActionActor,
        mutate: bool,
        r: ActionResult,
    ) -> bool {
        &&& c1 =~= c0
        &&& (!mutate || r is Err ==> e1.unchanged(e0))
        &&& (mutate && r is Ok ==> {
            &&& e1.only_touches(e0, Touched { actors: true, ..Touched::nothing() })
            &&& state_added(e0.world.actors@, e1.world.actors@, self.actor_id, self.state, e0.config.modifiers_spec(self.state))
        })
    }

    /// The answer to a request from `actor` on engine `e0`: the refusal, or a plain answer.
    pub open spec fn answer(&self, e0: Engine, e1: Engine, actor: ActionActor, mutate: bool) -> ActionResult {
        match self.refusal(e0, actor) {
            Some(e) => Err::<ActionResponse, ActionError>(e),
            None => Ok(ActionResponse::CheckedAddState(AddStateResponse {})),
        }
    }

    pub fn validate(&self, eng: &Engine, actor: &ActionActor) -> (r: Result<(), ActionError>)
        ensures
            r == match self.refusal(*eng, *actor) {
                Some(e) => Err::<(), ActionError>(e),
                None => Ok(()),
            },
    {
        actor.require_system()?;
        let _ = get_actor(eng, self.actor_id)?;
        Ok(())
    }

    pub fn execute(self, eng: &mut Engine, actor: &ActionActor) -> (r: ActionResponse)
        requires
            old(eng).wf(),
            self.refusal(*old(eng), *actor) is None,
        ensures
            final(eng).wf(),
            r == ActionResponse::CheckedAddState(AddStateResponse {}),
            final(eng).only_touches(*old(eng), Touched { actors: true, ..Touched::nothing() }),
            state_added(
                old(eng).world.actors@,
                final(eng).world.actors@,
                self.actor_id,
                self.state,
                old(eng).config.modifiers_spec(self.state),
            ),
    {
        let modifiers: Vec<Modifier> = eng.config.modifiers_of(self.state);
        let ghost e0 = *eng;
        let mut target: Actor = eng.world.actors.take(self.actor_id).unwrap();
        target.add_state(self.state, modifiers);
        eng.world.actors.put(self.actor_id, target);
        proof {
            assert(eng.world.actors@ =~= e0.world.actors@.insert(self.actor_id, eng.world.actors@[self.actor_id]));
            assert(same_actor_types(e0.world.actors@, eng.world.actors@));
            lemma_same_actor_types(e0.world.actors@, eng.world.actors@);
        }
        ActionResponse::CheckedAddState(AddStateResponse {})
    }
}

} // verus!
