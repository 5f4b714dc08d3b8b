use vstd::prelude::*;

use crate::action::{CommandPacket, ActionActor, ActionContext, ActionError, ActionResponse, ActionResult};
use crate::actor::Actor;
use crate::common::{ID, Version};
use crate::engine::{id_inserted, lemma_same_actor_types, same_actor_types, Engine, Touched};
use crate::helpers::{get_actor, get_passive};
use crate::idset::without;
use crate::ownership::OwnershipStruct;
use crate::passive::Passive;

verus! {

#[derive(PartialEq, Eq, Structural, Clone, Debug)]
pub struct GivePassiveResponse {}

/// System action: transfer a passive to an actor; it leaves its previous owner.
#[derive(PartialEq, Eq, Structural, Clone, Debug)]
pub struct GivePassive {
    pub passive_id: ID,
    pub actor_id: ID,
    pub volatile: bool,
}

/// The actors after passive `pid` moves from `from` (if any) to `to`.
pub open spec fn passive_moved(old: Map<ID, Actor>, new: Map<ID, Actor>, pid: ID, from: Option<ID>, to: ID) -> bool {
    &&& same_actor_types(old, new)
    &&& forall|k: ID| #[trigger] new.contains_key(k) ==> if k == to {
        &&& new[k] == (Actor { passives: new[k].passives, ..old[k] })
        &&& new[k].passives@ == id_inserted(old[k].passives@, pid)
    } else if from == Some(k) {
        &&& new[k] == (Actor { passives: new[k].passives, ..old[k] })
        &&& new[k].passives@ == without(old[k].passives@, pid)
    } else {
        new[k] == old[k]
    }
}

impl GivePassive {
    /// Why the passive is not given, if it is not.
    pub open spec fn refusal(&self, e: Engine, actor: ActionActor) -> Option<ActionError> {
        if !(actor is System) {
            Some(ActionError::RequiresSystem)
        } else if !e.world.actors@.contains_key(self.actor_id) {
            Some(ActionError::ActorNotFound)
        } else if !e.world.passives@.contains_key(self.passive_id) {
            Some(ActionError::PassiveNotFound)
        } else if e.world.passives@[self.passive_id].ownership_struct.owner == Some(self.actor_id) {
            Some(ActionError::ItemAlreadyOwned)
        } else {
            None
        }
    }

    /// What the handler does besides answering: its effect on the engine (from `e0` to
    /// `e1`) and on the commands (from `c0` to `c1`), given its answer `r`.
    pub open spec fn effect(
        &self,
        e0: Engine,
        e1: Engine,
        c0: Seq<CommandPacket>,
        c1: Seq<CommandPacket>,
        actor: ActionActor,
        mutate: bool,
        r: ActionResult,
    ) -> bool {
        &&& (e1.wf())
        &&& (c1 =~= c0)
        &&& (e1.only_touches(e0, Touched { actors: true, passives: true, ..Touched::nothing() }))
        &&& (!mutate || r is Err ==> e1.unchanged(e0))
        &&& (e1.world.passives.next_key() == e0.world.passives.next_key())
        &&& (mutate && r is Ok ==> {
            let pid = self.passive_id;
            let p0 = e0.world.passives@[pid];
            &&& e1.world.passives@ =~= e0.world.passives@.insert(pid, Passive {
                ownership_struct: OwnershipStruct {
                    owner: Some(self.actor_id),
                    transferrable: p0.ownership_struct.transferrable,
                    volatile: self.volatile,
                },
                passive_type: p0.passive_type,
            })
            &&& passive_moved(e0.world.actors@, e1.world.actors@, pid, p0.ownership_struct.owner, self.actor_id)
        })
    }

    /// The answer to a request from `actor`, from the engine before (`e0`) and after (`e1`)
    /// the handler runs.
    pub open spec fn answer(&self, e0: Engine, e1: Engine, actor: ActionActor, mutate: bool) -> ActionResult {
        match self.refusal(e0, actor) {
            Some(e) => Err::<ActionResponse, ActionError>(e),
            None => Ok(ActionResponse::GivePassive(GivePassiveResponse {})),
        }
    }

    pub fn handle(
        &mut self,
        eng: &mut Engine,
        ctx: &mut ActionContext,
        actor: &ActionActor,
        version: Version,
        mutate: bool,
    ) -> (r: ActionResult)
        requires
            old(eng).wf(),
        ensures
            final(eng).wf(),
            *final(self) == *old(self),
            final(ctx).commands@ == old(ctx).commands@,
            final(eng).only_touches(*old(eng), Touched { actors: true, passives: true, ..Touched::nothing() }),
            !mutate || r is Err ==> final(eng).unchanged(*old(eng)),
            final(eng).world.passives.next_key() == old(eng).world.passives.next_key(),
            r == old(self).answer(*old(eng), *final(eng), *actor, mutate),
            mutate && r is Ok ==> {
                let pid = old(self).passive_id;
                let p0 = old(eng).world.passives@[pid];
                &&& final(eng).world.passives@ == old(eng).world.passives@.insert(pid, Passive {
                    ownership_struct: OwnershipStruct {
                        owner: Some(old(self).actor_id),
                        transferrable: p0.ownership_struct.transferrable,
                        volatile: old(self).volatile,
                    },
                    passive_type: p0.passive_type,
                })
                &&& passive_moved(old(eng).world.actors@, final(eng).world.actors@, pid, p0.ownership_struct.owner, old(self).actor_id)
            },
            old(self).effect(*old(eng), *final(eng), old(ctx).commands@, final(ctx).commands@, *actor, mutate, r),
    {
        actor.require_system()?;
        let _ = get_actor(eng, self.actor_id)?;
        let owner: Option<ID> = get_passive(eng, self.passive_id)?.ownership_struct.owner;
        if let Some(o) = owner {
            if o == self.actor_id {
                return Err(ActionError::ItemAlreadyOwned);
            }
        }
        if mutate {
            let ghost e0 = *eng;
            if let Some(o) = owner {
                eng.world.actor_remove_passive(o, self.passive_id);
            }
            let ghost e1 = *eng;
            let mut passive: Passive = eng.world.passives.take(self.passive_id).unwrap();
            passive.ownership_struct.set_owner(self.actor_id, self.volatile);
            eng.world.passives.put(self.passive_id, passive);
            eng.world.actor_add_passive(self.actor_id, self.passive_id);
            proof {
                lemma_same_actor_types(e0.world.actors@, e1.world.actors@);
                lemma_same_actor_types(e1.world.actors@, eng.world.actors@);
                assert(eng.world.passives@ =~= e0.world.passives@.insert(self.passive_id, eng.world.passives@[self.passive_id]));
                assert(same_actor_types(e0.world.actors@, eng.world.actors@));
            }
        }
        Ok(ActionResponse::GivePassive(GivePassiveResponse {}))
    }
}

} // verus!
