use vstd::prelude::*;

use crate::action::add_notebook::AddNotebook;
use crate::action::comms::lounge::create_lounge::player_refusal;
use crate::action::give_notebook::{notebook_moved, GiveNotebook};
use crate::action::{CommandPacket, ActionActor, ActionContext, ActionError, ActionResponse, ActionResult};
use crate::common::{ID, Version};
use crate::engine::{Engine, Touched};
use crate::helpers::get_player;
use crate::notebook::Notebook;

verus! {

#[derive(PartialEq, Eq, Structural, Clone, Debug)]
pub struct CreateAndGiveNotebookResponse {
    pub id: ID,
}

/// System action: create a notebook and give it to a player.  A dry run answers with id 0.
#[derive(PartialEq, Eq, Structural, Clone, Debug)]
pub struct CreateAndGiveNotebook {
    pub fake: bool,
    pub volatile: bool,
    pub actor_id: ID,
}

impl CreateAndGiveNotebook {
    /// What the handler does besides answering: its effect on the engine (from `e0` to
    /// `e1`) and on the commands (from `c0` to `c1`), given its answer `r`.
    pub open spec fn effect(
        &self,
        e0: Engine,
        e1: Engine,
        c0: Seq<CommandPacket>,
        c1: Seq<CommandPacket>,
        actor: ActionActor,
        mutate: bool,
        r: ActionResult,
    ) -> bool {
        &&& (e1.wf())
        &&& (c1 =~= c0)
        &&& (e1.only_touches(e0, Touched { actors: true, notebooks: true, ..Touched::nothing() }))
        &&& (!mutate || r is Err ==> e1.unchanged(e0))
        &&& (mutate && r is Ok ==> {
            let id = e0.world.notebooks.next_key() as ID;
            &&& id == e0.world.notebooks.next_key()
            &&& !e0.world.notebooks@.contains_key(id)
            &&& e1.world.notebooks@ =~= e0.world.notebooks@.insert(id, Notebook {
                owner: Some(self.actor_id),
                volatile: self.volatile,
                fake: self.fake,
            })
            &&& e1.world.notebooks.next_key() == e0.world.notebooks.next_key() + 1
            &&& notebook_moved(e0.world.actors@, e1.world.actors@, id, None, self.actor_id)
        })
    }

    /// The answer to a request from `actor`, from the engine before (`e0`) and after (`e1`)
    /// the handler runs.
    pub open spec fn answer(&self, e0: Engine, e1: Engine, actor: ActionActor, mutate: bool) -> ActionResult {
        if !(actor is System) {
            Err::<ActionResponse, ActionError>(ActionError::RequiresSystem)
        } else if player_refusal(e0, self.actor_id) is Some {
            Err(player_refusal(e0, self.actor_id)->0)
        } else {
            Ok(ActionResponse::CreateAndGiveNotebook(CreateAndGiveNotebookResponse {
                id: if mutate { e0.world.notebooks.next_key() as ID } else { 0 },
            }))
        }
    }

    pub fn handle(
        &mut self,
        eng: &mut Engine,
        ctx: &mut ActionContext,
        actor: &ActionActor,
        version: Version,
        mutate: bool,
    ) -> (r: ActionResult)
        requires
            old(eng).wf(),
        ensures
            final(eng).wf(),
            *final(self) == *old(self),
            final(ctx).commands@ == old(ctx).commands@,
            final(eng).only_touches(*old(eng), Touched { actors: true, notebooks: true, ..Touched::nothing() }),
            !mutate || r is Err ==> final(eng).unchanged(*old(eng)),
            r == old(self).answer(*old(eng), *final(eng), *actor, mutate),
            mutate && r is Ok ==> {
                let id = old(eng).world.notebooks.next_key() as ID;
                &&& id == old(eng).world.notebooks.next_key()
                &&& !old(eng).world.notebooks@.contains_key(id)
                &&& final(eng).world.notebooks@ == old(eng).world.notebooks@.insert(id, Notebook {
                    owner: Some(old(self).actor_id),
                    volatile: old(self).volatile,
                    fake: old(self).fake,
                })
                &&& final(eng).world.notebooks.next_key() == old(eng).world.notebooks.next_key() + 1
                &&& notebook_moved(old(eng).world.actors@, final(eng).world.actors@, id, None, old(self).actor_id)
            },
            old(self).effect(*old(eng), *final(eng), old(ctx).commands@, final(ctx).commands@, *actor, mutate, r),
    {
        actor.require_system()?;
        let _ = get_player(eng, self.actor_id)?;
        let added = (AddNotebook { fake: self.fake }).handle(eng, ctx, actor, version, mutate)?;
        let id: ID = match added {
            ActionResponse::AddNotebook(data) => data.id,
            _ => 0,
        };
        if mutate {
            let ghost e1 = *eng;
            (GiveNotebook { notebook_id: id, actor_id: self.actor_id, volatile: self.volatile }).handle(
                eng,
                ctx,
                actor,
                version,
                mutate,
            )?;
            proof {
                assert(e1.world.actors@ == old(eng).world.actors@);
                assert(e1.world.notebooks@[id].owner is None);
                assert(eng.world.notebooks@ =~= old(eng).world.notebooks@.insert(id, eng.world.notebooks@[id]));
            }
        }
        Ok(ActionResponse::CreateAndGiveNotebook(CreateAndGiveNotebookResponse { id }))
    }
}

} // verus!
