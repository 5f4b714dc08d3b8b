use vstd::prelude::*;

use crate::action::comms::lounge::create_lounge::player_refusal;
use crate::action::{CommandPacket, ActionActor, ActionContext, ActionError, ActionResponse, ActionResult};
use crate::actor::Actor;
use crate::common::{ID, Version};
use crate::engine::{id_inserted, lemma_same_actor_types, same_actor_types, Engine, Touched};
use crate::helpers::{get_notebook, get_player};
use crate::idset::without;
use crate::notebook::Notebook;

verus! {

#[derive(PartialEq, Eq, Structural, Clone, Debug)]
pub struct GiveNotebookResponse {}

/// System action: give a player true ownership of a notebook; it leaves its previous owner.
#[derive(PartialEq, Eq, Structural, Clone, Debug)]
pub struct GiveNotebook {
    pub notebook_id: ID,
    pub actor_id: ID,
    pub volatile: bool,
}

/// The actors after notebook `nid` moves from `from` (if any) to `to`.
pub open spec fn notebook_moved(old: Map<ID, Actor>, new: Map<ID, Actor>, nid: ID, from: Option<ID>, to: ID) -> bool {
    &&& same_actor_types(old, new)
    &&& forall|k: ID| #[trigger] new.contains_key(k) ==> if k == to {
        &&& new[k] == (Actor { notebooks: new[k].notebooks, ..old[k] })
        &&& new[k].notebooks@ == id_inserted(old[k].notebooks@, nid)
    } else if from == Some(k) {
        &&& new[k] == (Actor { notebooks: new[k].notebooks, ..old[k] })
        &&& new[k].notebooks@ == without(old[k].notebooks@, nid)
    } else {
        new[k] == old[k]
    }
}

impl GiveNotebook {
    /// Why the notebook is not given, if it is not.
    pub open spec fn refusal(&self, e: Engine, actor: ActionActor) -> Option<ActionError> {
        if !(actor is System) {
            Some(ActionError::RequiresSystem)
        } else if player_refusal(e, self.actor_id) is Some {
            player_refusal(e, self.actor_id)
        } else if !e.world.notebooks@.contains_key(self.notebook_id) {
            Some(ActionError::NotebookNotFound)
        } else if e.world.notebooks@[self.notebook_id].owner == Some(self.actor_id) {
            Some(ActionError::ItemAlreadyOwned)
        } else {
            None
        }
    }

    /// What the handler does besides answering: its effect on the engine (from `e0` to
    /// `e1`) and on the commands (from `c0` to `c1`), given its answer `r`.
    pub open spec fn effect(
        &self,
        e0: Engine,
        e1: Engine,
        c0: Seq<CommandPacket>,
        c1: Seq<CommandPacket>,
        actor: ActionActor,
        mutate: bool,
        r: ActionResult,
    ) -> bool {
        &&& (e1.wf())
        &&& (c1 =~= c0)
        &&& (e1.only_touches(e0, Touched { actors: true, notebooks: true, ..Touched::nothing() }))
        &&& (!mutate || r is Err ==> e1.unchanged(e0))
        &&& (e1.world.notebooks.next_key() == e0.world.notebooks.next_key())
        &&& (mutate && r is Ok ==> {
            let nid = self.notebook_id;
            let n0 = e0.world.notebooks@[nid];
            &&& e1.world.notebooks@ =~= e0.world.notebooks@.insert(nid, Notebook {
                owner: Some(self.actor_id),
                volatile: self.volatile,
                fake: n0.fake,
            })
            &&& notebook_moved(e0.world.actors@, e1.world.actors@, nid, n0.owner, self.actor_id)
        })
    }

    /// The answer to a request from `actor`, from the engine before (`e0`) and after (`e1`)
    /// the handler runs.
    pub open spec fn answer(&self, e0: Engine, e1: Engine, actor: ActionActor, mutate: bool) -> ActionResult {
        match self.refusal(e0, actor) {
            Some(e) => Err::<ActionResponse, ActionError>(e),
            None => Ok(ActionResponse::GiveNotebook(GiveNotebookResponse {})),
        }
    }

    pub fn handle(
        &mut self,
        eng: &mut Engine,
        ctx: &mut ActionContext,
        actor: &ActionActor,
        version: Version,
        mutate: bool,
    ) -> (r: ActionResult)
        requires
            old(eng).wf(),
        ensures
            final(eng).wf(),
            *final(self) == *old(self),
            final(ctx).commands@ == old(ctx).commands@,
            final(eng).only_touches(*old(eng), Touched { actors: true, notebooks: true, ..Touched::nothing() }),
            !mutate || r is Err ==> final(eng).unchanged(*old(eng)),
            final(eng).world.notebooks.next_key() == old(eng).world.notebooks.next_key(),
            r == old(self).answer(*old(eng), *final(eng), *actor, mutate),
            mutate && r is Ok ==> {
                let nid = old(self).notebook_id;
                let n0 = old(eng).world.notebooks@[nid];
                &&& final(eng).world.notebooks@ == old(eng).world.notebooks@.insert(nid, Notebook {
                    owner: Some(old(self).actor_id),
                    volatile: old(self).volatile,
                    fake: n0.fake,
                })
                &&& notebook_moved(old(eng).world.actors@, final(eng).world.actors@, nid, n0.owner, old(self).actor_id)
            },
            old(self).effect(*old(eng), *final(eng), old(ctx).commands@, final(ctx).commands@, *actor, mutate, r),
    {
        actor.require_system()?;
        let _ = get_player(eng, self.actor_id)?;
        let owner: Option<ID> = get_notebook(eng, self.notebook_id)?.owner;
        if let Some(o) = owner {
            if o == self.actor_id {
                return Err(ActionError::ItemAlreadyOwned);
            }
        }
        if mutate {
            let ghost e0 = *eng;
            if let Some(o) = owner {
                eng.world.actor_remove_notebook(o, self.notebook_id);
            }
            let ghost e1 = *eng;
            let mut notebook: Notebook = eng.world.notebooks.take(self.notebook_id).unwrap();
            notebook.set_true_owner(self.actor_id, self.volatile);
            eng.world.notebooks.put(self.notebook_id, notebook);
            eng.world.actor_add_notebook(self.actor_id, self.notebook_id);
            proof {
                lemma_same_actor_types(e0.world.actors@, e1.world.actors@);
                lemma_same_actor_types(e1.world.actors@, eng.world.actors@);
                assert(eng.world.notebooks@ =~= e0.world.notebooks@.insert(self.notebook_id, eng.world.notebooks@[self.notebook_id]));
                assert(same_actor_types(e0.world.actors@, eng.world.actors@));
            }
        }
        Ok(ActionResponse::GiveNotebook(GiveNotebookResponse {}))
    }
}

} // verus!
