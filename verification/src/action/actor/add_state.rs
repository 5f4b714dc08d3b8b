use vstd::prelude::*;

use crate::action::comms::bug::update_bug_visibilities::{all_bug_cmds, UpdateBugVisibilities};
use crate::action::comms::update_contact_channels::{
    contact_channels_hold, contact_perms, contacts_set, lemma_hold_preserved, lemma_refusal_stable,
    UpdateContactChannels,
};
use crate::action::{CommandPacket, Action, ActionActor, ActionContext, ActionError, ActionResponse, ActionResult};
use crate::actor::{Actor, Modifier, State};
use crate::common::{ActorKey, ID, Version};
use crate::engine::{lemma_same_actor_types, same_actor_types, Engine, Touched};
use crate::helpers::{get_actor, get_player};

verus! {

#[derive(PartialEq, Eq, Structural, Clone, Debug)]
pub struct AddStateResponse {}

/// Admin or system action: put an actor in a state, with the modifiers the config gives
/// that state; then bring a player's contact channel permissions and every bug's
/// visibility up to date.
#[derive(PartialEq, Eq, Structural, Clone, Debug)]
pub struct AddState {
    pub actor_id: ActorKey,
    pub state: State,
}

/// The request to put an actor in a state.
pub fn state_addition(actor_id: ActorKey, state: State) -> (a: Action)
    ensures
        a == Action::AddState(AddState { actor_id, state }),
{
    Action::AddState(AddState { actor_id, state })
}

/// The actors after actor `id` is put in `state` with modifiers `mods`.
pub open spec fn state_added(old: Map<ID, Actor>, new: Map<ID, Actor>, id: ID, state: State, mods: Seq<Modifier>) -> bool {
    &&& old.contains_key(id)
    &&& new == old.insert(id, new[id])
    &&& new[id] == (Actor { states: new[id].states, ..old[id] })
    &&& new[id].states@ == old[id].states@.push(new[id].states@.last())
    &&& new[id].states@.last().state == state
    &&& new[id].states@.last().modifiers@ == mods
    &&& same_actor_types(old, new)
}

impl AddState {
    /// Why the action is refused before the bugs are gone through, if it is.
    pub open spec fn refusal(&self, e: Engine, actor: ActionActor) -> Option<ActionError> {
        if !actor.is_admin_or_system() {
            Some(ActionError::RequiresAdminOrSystem)
        } else if !e.world.actors@.contains_key(self.actor_id) {
            Some(ActionError::ActorNotFound)
        } else if e.world.is_player(self.actor_id) {
            (UpdateContactChannels { player_id: self.actor_id }).refusal(e, actor)
        } else {
            None
        }
    }

    /// What the handler does besides answering: its effect on the engine (from `e0` to
    /// `e1`) and on the commands (from `c0` to `c1`), given its answer `r`.
    pub open spec fn effect(
        &self,
        e0: Engine,
        e1: Engine,
        c0: Seq<CommandPacket>,
        c1: Seq<CommandPacket>,
        actor: ActionActor,
        mutate: bool,
        r: ActionResult,
    ) -> bool {
        &&& (e1.wf())
        &&& (contact_channels_hold(e1, self.actor_id))
        &&& (e1.only_touches(e0, Touched { actors: true, channels: true, ..Touched::nothing() }))
        &&& (!mutate ==> e1.unchanged(e0))
        &&& (({
            let bugs = all_bug_cmds(e1.world, e1.time);
            &&& r == match self.refusal(e0, actor) {
                Some(e) => Err::<ActionResponse, ActionError>(e),
                None => match bugs {
                    Err(e) => Err(e),
                    Ok(_) => Ok(ActionResponse::AddState(AddStateResponse {})),
                },
            }
            &&& r is Ok ==> c1 =~= c0 + bugs->Ok_0
        }))
        &&& (mutate && actor.is_admin_or_system() && e0.world.actors@.contains_key(self.actor_id) ==> state_added(
            e0.world.actors@,
            e1.world.actors@,
            self.actor_id,
            self.state,
            e0.config.modifiers_spec(self.state),
        ))
        &&& (mutate && r is Ok && e0.world.is_player(self.actor_id) ==> contacts_set(
            e0,
            e1,
            self.actor_id,
            contact_perms(e1.world.actors@[self.actor_id].has_modifier_spec(Modifier::NoContact)),
        ))
        &&& (r is Ok && !e0.world.is_player(self.actor_id) ==> e1.world.channels == e0.world.channels)
    }

    /// The answer to a request from `actor`, from the engine before (`e0`) and after (`e1`)
    /// the handler runs.
    pub open spec fn answer(&self, e0: Engine, e1: Engine, actor: ActionActor, mutate: bool) -> ActionResult {
        match self.refusal(e0, actor) {
            Some(e) => Err::<ActionResponse, ActionError>(e),
            None => match all_bug_cmds(e1.world, e1.time) {
                Err(e) => Err(e),
                Ok(_) => Ok(ActionResponse::AddState(AddStateResponse {})),
            },
        }
    }

    pub fn handle(
        &mut self,
        eng: &mut Engine,
        ctx: &mut ActionContext,
        actor: &ActionActor,
        version: Version,
        mutate: bool,
    ) -> (r: ActionResult)
        requires
            old(eng).wf(),
            contact_channels_hold(*old(eng), old(self).actor_id),
        ensures
            r == old(self).answer(*old(eng), *final(eng), *actor, mutate),
            final(eng).wf(),
            *final(self) == *old(self),
            contact_channels_hold(*final(eng), old(self).actor_id),
            final(eng).only_touches(*old(eng), Touched { actors: true, channels: true, ..Touched::nothing() }),
            !mutate ==> final(eng).unchanged(*old(eng)),
            ({
                let bugs = all_bug_cmds(final(eng).world, final(eng).time);
                &&& r == match old(self).refusal(*old(eng), *actor) {
                    Some(e) => Err::<ActionResponse, ActionError>(e),
                    None => match bugs {
                        Err(e) => Err(e),
                        Ok(_) => Ok(ActionResponse::AddState(AddStateResponse {})),
                    },
                }
                &&& r is Ok ==> final(ctx).commands@ == old(ctx).commands@ + bugs->Ok_0
            }),
            mutate && actor.is_admin_or_system() && old(eng).world.actors@.contains_key(old(self).actor_id) ==> state_added(
                old(eng).world.actors@,
                final(eng).world.actors@,
                old(self).actor_id,
                old(self).state,
                old(eng).config.modifiers_spec(old(self).state),
            ),
            mutate && r is Ok && old(eng).world.is_player(old(self).actor_id) ==> contacts_set(
                *old(eng),
                *final(eng),
                old(self).actor_id,
                contact_perms(final(eng).world.actors@[old(self).actor_id].has_modifier_spec(Modifier::NoContact)),
            ),
            r is Ok && !old(eng).world.is_player(old(self).actor_id) ==> final(eng).world.channels == old(eng).world.channels,
            old(self).effect(*old(eng), *final(eng), old(ctx).commands@, final(ctx).commands@, *actor, mutate, r),
    {
        actor.admin_or_system()?;

        let modifiers: Vec<Modifier> = eng.config.modifiers_of(self.state);

        let _ = get_actor(eng, self.actor_id)?;
        let ghost e0 = *eng;
        if mutate {
            let mut target: Actor = eng.world.actors.take(self.actor_id).unwrap();
            target.add_state(self.state, modifiers);
            eng.world.actors.put(self.actor_id, target);
            proof {
                assert(eng.world.actors@ =~= e0.world.actors@.insert(self.actor_id, eng.world.actors@[self.actor_id]));
                assert(same_actor_types(e0.world.actors@, eng.world.actors@));
                lemma_same_actor_types(e0.world.actors@, eng.world.actors@);
            }
        }
        let ghost e1 = *eng;
        proof {
            lemma_hold_preserved(e0, e1, self.actor_id);
            lemma_refusal_stable(e0, e1, self.actor_id, *actor);
        }

        if get_player(eng, self.actor_id).is_ok() {
            (UpdateContactChannels { player_id: self.actor_id }).handle(eng, ctx, actor, version, mutate)?;
            // World channel permissions are not kept by this library.
        }
        proof {
            lemma_same_actor_types(e0.world.actors@, eng.world.actors@);
        }

        (UpdateBugVisibilities {}).handle(eng, ctx, actor, version, mutate)?;

        // Kidnapping and prison channels are not kept by this library.
        Ok(ActionResponse::AddState(AddStateResponse {}))
    }
}

} // verus!
