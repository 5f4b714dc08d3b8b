use vstd::prelude::*;

use crate::action::comms::lounge::create_lounge::player_refusal;
use crate::action::{CommandPacket, ActionActor, ActionContext, ActionError, ActionResponse, ActionResult};
use crate::actor::Player;
use crate::bug::Bug;
use crate::common::{ID, Version};
use crate::engine::{id_inserted, lemma_player_replaced, player_replaced, Engine, Touched};
use crate::helpers::{get_ability, get_player};

verus! {

#[derive(PartialEq, Eq, Structural, Clone, Debug)]
pub struct CreateBugResponse {
    pub id: ID,
}

/// System action: create an enabled bug on a player, logging to the owner of an ability;
/// the player's bugs list it.  A dry run answers with id 0.
#[derive(PartialEq, Eq, Structural, Clone, Debug)]
pub struct CreateBug {
    pub target_id: ID,
    pub ability_id: ID,
}

impl CreateBug {
    /// Why the bug is not created, if it is not.
    pub open spec fn refusal(&self, e: Engine, actor: ActionActor) -> Option<ActionError> {
        if !(actor is System) {
            Some(ActionError::RequiresSystem)
        } else if player_refusal(e, self.target_id) is Some {
            player_refusal(e, self.target_id)
        } else if !e.world.abilities@.contains_key(self.ability_id) {
            Some(ActionError::AbilityNotFound)
        } else {
            None
        }
    }

    /// What the handler does besides answering: its effect on the engine (from `e0` to
    /// `e1`) and on the commands (from `c0` to `c1`), given its answer `r`.
    pub open spec fn effect(
        &self,
        e0: Engine,
        e1: Engine,
        c0: Seq<CommandPacket>,
        c1: Seq<CommandPacket>,
        actor: ActionActor,
        mutate: bool,
        r: ActionResult,
    ) -> bool {
        &&& (e1.wf())
        &&& (c1 =~= c0)
        &&& (e1.only_touches(e0, Touched { actors: true, bugs: true, ..Touched::nothing() }))
        &&& (!mutate || r is Err ==> e1.unchanged(e0))
        &&& (mutate && r is Ok ==> {
            let id = e0.world.bugs.next_key() as ID;
            let t = self.target_id;
            &&& id == e0.world.bugs.next_key()
            &&& !e0.world.bugs@.contains_key(id)
            &&& e1.world.bugs@ =~= e0.world.bugs@.insert(id, Bug::new_spec(t, self.ability_id))
            &&& e1.world.bugs.next_key() == e0.world.bugs.next_key() + 1
            &&& player_replaced(
                e0.world.actors@,
                e1.world.actors@,
                t,
                Player { bugs: e1.world.player(t).bugs, ..e0.world.player(t) },
            )
            &&& e1.world.player(t).bugs@ =~= id_inserted(e0.world.player(t).bugs@, id)
        })
    }

    /// The answer to a request from `actor`, from the engine before (`e0`) and after (`e1`)
    /// the handler runs.
    pub open spec fn answer(&self, e0: Engine, e1: Engine, actor: ActionActor, mutate: bool) -> ActionResult {
        match self.refusal(e0, actor) {
            Some(e) => Err::<ActionResponse, ActionError>(e),
            None => Ok(ActionResponse::CreateBug(CreateBugResponse {
                id: if mutate { e0.world.bugs.next_key() as ID } else { 0 },
            })),
        }
    }

    pub fn handle(
        &mut self,
        eng: &mut Engine,
        ctx: &mut ActionContext,
        actor: &ActionActor,
        version: Version,
        mutate: bool,
    ) -> (r: ActionResult)
        requires
            old(eng).wf(),
        ensures
            final(eng).wf(),
            *final(self) == *old(self),
            final(ctx).commands@ == old(ctx).commands@,
            final(eng).only_touches(*old(eng), Touched { actors: true, bugs: true, ..Touched::nothing() }),
            !mutate || r is Err ==> final(eng).unchanged(*old(eng)),
            r == old(self).answer(*old(eng), *final(eng), *actor, mutate),
            mutate && r is Ok ==> {
                let id = old(eng).world.bugs.next_key() as ID;
                let t = old(self).target_id;
                &&& id == old(eng).world.bugs.next_key()
                &&& !old(eng).world.bugs@.contains_key(id)
                &&& final(eng).world.bugs@ == old(eng).world.bugs@.insert(id, Bug::new_spec(t, old(self).ability_id))
                &&& final(eng).world.bugs.next_key() == old(eng).world.bugs.next_key() + 1
                &&& player_replaced(
                    old(eng).world.actors@,
                    final(eng).world.actors@,
                    t,
                    Player { bugs: final(eng).world.player(t).bugs, ..old(eng).world.player(t) },
                )
                &&& final(eng).world.player(t).bugs@ == id_inserted(old(eng).world.player(t).bugs@, id)
            },
            old(self).effect(*old(eng), *final(eng), old(ctx).commands@, final(ctx).commands@, *actor, mutate, r),
    {
        actor.require_system()?;
        let _ = get_player(eng, self.target_id)?;
        let _ = get_ability(eng, self.ability_id)?;
        let id: ID = if mutate {
            let bug_id: ID = eng.world.bugs.add(Bug::new(self.target_id, self.ability_id));
            let ghost e1 = *eng;
            eng.world.set_player_bug(self.target_id, bug_id, true);
            proof {
                lemma_player_replaced(e1.world.actors@, eng.world.actors@, self.target_id, eng.world.player(self.target_id));
            }
            bug_id
        } else {
            0
        };
        Ok(ActionResponse::CreateBug(CreateBugResponse { id }))
    }
}

} // verus!
