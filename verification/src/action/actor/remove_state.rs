use vstd::prelude::*;

use crate::action::comms::update_contact_channels::{
    contact_channels_hold, contact_perms, contacts_set, lemma_hold_preserved, lemma_refusal_stable,
    UpdateContactChannels,
};
use crate::action::{CommandPacket, ActionActor, ActionContext, ActionError, ActionResponse, ActionResult};
use crate::actor::{state_is_not, Actor, Modifier, State};
use crate::common::{ID, Version};
use crate::engine::{lemma_same_actor_types, same_actor_types, Engine, Touched};
use crate::helpers::{get_actor, get_player};

verus! {

#[derive(PartialEq, Eq, Structural, Clone, Debug)]
pub struct RemoveStateResponse {}

/// Admin or system action: take an actor out of a state (with the modifiers it brought);
/// then bring a player's contact channel permissions up to date.
#[derive(PartialEq, Eq, Structural, Clone, Debug)]
pub struct RemoveState {
    pub actor_id: ID,
    pub state: State,
}

/// The actors after actor `id` is taken out of `state`.
pub open spec fn state_removed(old: Map<ID, Actor>, new: Map<ID, Actor>, id: ID, state: State) -> bool {
    &&& old.contains_key(id)
    &&& new == old.insert(id, new[id])
    &&& new[id] == (Actor { states: new[id].states, ..old[id] })
    &&& new[id].states@ == old[id].states@.filter(state_is_not(state))
    &&& same_actor_types(old, new)
}

impl RemoveState {
    /// Why the action is refused, if it is.
    pub open spec fn refusal(&self, e: Engine, actor: ActionActor) -> Option<ActionError> {
        if !actor.is_admin_or_system() {
            Some(ActionError::RequiresAdminOrSystem)
        } else if !e.world.actors@.contains_key(self.actor_id) {
            Some(ActionError::ActorNotFound)
        } else if e.world.is_player(self.actor_id) {
            (UpdateContactChannels { player_id: self.actor_id }).refusal(e, actor)
        } else {
            None
        }
    }

    /// What the handler does besides answering: its effect on the engine (from `e0` to
    /// `e1`) and on the commands (from `c0` to `c1`), given its answer `r`.
    pub open spec fn effect(
        &self,
        e0: Engine,
        e1: Engine,
        c0: Seq<CommandPacket>,
        c1: Seq<CommandPacket>,
        actor: ActionActor,
        mutate: bool,
        r: ActionResult,
    ) -> bool {
        &&& (e1.wf())
        &&& (c1 =~= c0)
        &&& (contact_channels_hold(e1, self.actor_id))
        &&& (e1.only_touches(e0, Touched { actors: true, channels: true, ..Touched::nothing() }))
        &&& (!mutate ==> e1.unchanged(e0))
        &&& (mutate && actor.is_admin_or_system() && e0.world.actors@.contains_key(self.actor_id) ==> state_removed(
            e0.world.actors@,
            e1.world.actors@,
            self.actor_id,
            self.state,
        ))
        &&& (mutate && r is Ok && e0.world.is_player(self.actor_id) ==> contacts_set(
            e0,
            e1,
            self.actor_id,
            contact_perms(e1.world.actors@[self.actor_id].has_modifier_spec(Modifier::NoContact)),
        ))
        &&& (r is Ok && !e0.world.is_player(self.actor_id) ==> e1.world.channels == e0.world.channels)
    }

    /// The answer to a request from `actor`, from the engine before (`e0`) and after (`e1`)
    /// the handler runs.
    pub open spec fn answer(&self, e0: Engine, e1: Engine, actor: ActionActor, mutate: bool) -> ActionResult {
        match self.refusal(e0, actor) {
            Some(e) => Err::<ActionResponse, ActionError>(e),
            None => Ok(ActionResponse::RemoveState(RemoveStateResponse {})),
        }
    }

    pub fn handle(
        &mut self,
        eng: &mut Engine,
        ctx: &mut ActionContext,
        actor: &ActionActor,
        version: Version,
        mutate: bool,
    ) -> (r: ActionResult)
        requires
            old(eng).wf(),
            contact_channels_hold(*old(eng), old(self).actor_id),
        ensures
            final(eng).wf(),
            *final(self) == *old(self),
            final(ctx).commands@ == old(ctx).commands@,
            contact_channels_hold(*final(eng), old(self).actor_id),
            final(eng).only_touches(*old(eng), Touched { actors: true, channels: true, ..Touched::nothing() }),
            !mutate ==> final(eng).unchanged(*old(eng)),
            r == old(self).answer(*old(eng), *final(eng), *actor, mutate),
            mutate && actor.is_admin_or_system() && old(eng).world.actors@.contains_key(old(self).actor_id) ==> state_removed(
                old(eng).world.actors@,
                final(eng).world.actors@,
                old(self).actor_id,
                old(self).state,
            ),
            mutate && r is Ok && old(eng).world.is_player(old(self).actor_id) ==> contacts_set(
                *old(eng),
                *final(eng),
                old(self).actor_id,
                contact_perms(final(eng).world.actors@[old(self).actor_id].has_modifier_spec(Modifier::NoContact)),
            ),
            r is Ok && !old(eng).world.is_player(old(self).actor_id) ==> final(eng).world.channels == old(eng).world.channels,
            old(self).effect(*old(eng), *final(eng), old(ctx).commands@, final(ctx).commands@, *actor, mutate, r),
    {
        actor.admin_or_system()?;

        let _ = get_actor(eng, self.actor_id)?;
        let ghost e0 = *eng;
        if mutate {
            let mut target: Actor = eng.world.actors.take(self.actor_id).unwrap();
            target.remove_state(self.state);
            eng.world.actors.put(self.actor_id, target);
            proof {
                assert(eng.world.actors@ =~= e0.world.actors@.insert(self.actor_id, eng.world.actors@[self.actor_id]));
                assert(same_actor_types(e0.world.actors@, eng.world.actors@));
                lemma_same_actor_types(e0.world.actors@, eng.world.actors@);
            }
        }
        let ghost e1 = *eng;
        proof {
            lemma_hold_preserved(e0, e1, self.actor_id);
            lemma_refusal_stable(e0, e1, self.actor_id, *actor);
        }

        if get_player(eng, self.actor_id).is_ok() {
            (UpdateContactChannels { player_id: self.actor_id }).handle(eng, ctx, actor, version, mutate)?;
            // World channel permissions are not kept by this library.
        }

        Ok(ActionResponse::RemoveState(RemoveStateResponse {}))
    }
}

} // verus!
