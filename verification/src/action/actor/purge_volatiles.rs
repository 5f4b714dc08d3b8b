use vstd::prelude::*;

use crate::action::{CommandPacket, ActionActor, ActionContext, ActionError, ActionResponse, ActionResult};
use crate::actor::Actor;
use crate::common::{ID, Version};
use crate::engine::{lemma_same_actor_types, same_actor_types, Engine, Touched};
use crate::helpers::get_actor;
use crate::idset::{lemma_push_contains, lemma_without_contains};

verus! {

#[derive(PartialEq, Eq, Structural, Clone, Debug)]
pub struct PurgeVolatilesResponse {}

/// System action: destroy every volatile ability, passive and notebook of an actor: each
/// leaves the world and the actor's lists.
#[derive(PartialEq, Eq, Structural, Clone, Debug)]
pub struct PurgeVolatiles {
    pub actor_id: ID,
}

/// Every ability, passive and notebook that actor `a` lists exists (the engine crashes
/// otherwise).
pub open spec fn holdings_exist(e: Engine, a: ID) -> bool {
    e.world.actors@.contains_key(a) ==> {
        let act = e.world.actors@[a];
        &&& forall|i: int| 0 <= i < act.abilities@.len() ==> e.world.abilities@.contains_key(#[trigger] act.abilities@[i])
        &&& forall|i: int| 0 <= i < act.passives@.len() ==> e.world.passives@.contains_key(#[trigger] act.passives@[i])
        &&& forall|i: int| 0 <= i < act.notebooks@.len() ==> e.world.notebooks@.contains_key(#[trigger] act.notebooks@[i])
    }
}

/// Whether ability `k` is a volatile ability that actor `a` lists.
pub open spec fn purged_ability(e: Engine, a: ID, k: ID) -> bool {
    e.world.actors@[a].abilities@.contains(k) && e.world.abilities@[k].ownership_struct.volatile
}

/// Whether passive `k` is a volatile passive that actor `a` lists.
pub open spec fn purged_passive(e: Engine, a: ID, k: ID) -> bool {
    e.world.actors@[a].passives@.contains(k) && e.world.passives@[k].ownership_struct.volatile
}

/// Whether notebook `k` is a volatile notebook that actor `a` lists.
pub open spec fn purged_notebook(e: Engine, a: ID, k: ID) -> bool {
    e.world.actors@[a].notebooks@.contains(k) && e.world.notebooks@[k].volatile
}

/// What a purge of actor `a` does.
pub open spec fn purged(e0: Engine, e1: Engine, a: ID) -> bool {
    let a0 = e0.world.actors@[a];
    let a1 = e1.world.actors@[a];
    &&& e1.world.abilities@ == e0.world.abilities@.restrict(e0.world.abilities@.dom().filter(|k: ID| !purged_ability(e0, a, k)))
    &&& e1.world.passives@ == e0.world.passives@.restrict(e0.world.passives@.dom().filter(|k: ID| !purged_passive(e0, a, k)))
    &&& e1.world.notebooks@ == e0.world.notebooks@.restrict(e0.world.notebooks@.dom().filter(|k: ID| !purged_notebook(e0, a, k)))
    &&& e1.world.actors@ == e0.world.actors@.insert(a, a1)
    &&& a1 == (Actor { abilities: a1.abilities, passives: a1.passives, notebooks: a1.notebooks, ..a0 })
    &&& forall|k: ID| #[trigger] a1.abilities@.contains(k) <==> a0.abilities@.contains(k) && !purged_ability(e0, a, k)
    &&& forall|k: ID| #[trigger] a1.passives@.contains(k) <==> a0.passives@.contains(k) && !purged_passive(e0, a, k)
    &&& forall|k: ID| #[trigger] a1.notebooks@.contains(k) <==> a0.notebooks@.contains(k) && !purged_notebook(e0, a, k)
}

impl PurgeVolatiles {
    /// What the handler does besides answering: its effect on the engine (from `e0` to
    /// `e1`) and on the commands (from `c0` to `c1`), given its answer `r`.
    pub open spec fn effect(
        &self,
        e0: Engine,
        e1: Engine,
        c0: Seq<CommandPacket>,
        c1: Seq<CommandPacket>,
        actor: ActionActor,
        mutate: bool,
        r: ActionResult,
    ) -> bool {
        &&& (e1.wf())
        &&& (c1 =~= c0)
        &&& (e1.only_touches(e0, Touched { actors: true, abilities: true, passives: true, notebooks: true, ..Touched::nothing() }))
        &&& (!mutate || r is Err ==> e1.unchanged(e0))
        &&& (e1.world.abilities.next_key() == e0.world.abilities.next_key())
        &&& (e1.world.passives.next_key() == e0.world.passives.next_key())
        &&& (e1.world.notebooks.next_key() == e0.world.notebooks.next_key())
        &&& (mutate && r is Ok ==> purged(e0, e1, self.actor_id))
    }

    /// The answer to a request from `actor`, from the engine before (`e0`) and after (`e1`)
    /// the handler runs.
    pub open spec fn answer(&self, e0: Engine, e1: Engine, actor: ActionActor, mutate: bool) -> ActionResult {
        if !(actor is System) {
            Err::<ActionResponse, ActionError>(ActionError::RequiresSystem)
        } else if !e0.world.actors@.contains_key(self.actor_id) {
            Err(ActionError::ActorNotFound)
        } else {
            Ok(ActionResponse::PurgeVolatiles(PurgeVolatilesResponse {}))
        }
    }

    #[verifier::loop_isolation(false)]
    #[verifier::rlimit(60)]
    pub fn handle(
        &mut self,
        eng: &mut Engine,
        ctx: &mut ActionContext,
        actor: &ActionActor,
        version: Version,
        mutate: bool,
    ) -> (r: ActionResult)
        requires
            old(eng).wf(),
            holdings_exist(*old(eng), old(self).actor_id),
        ensures
            final(eng).wf(),
            *final(self) == *old(self),
            final(ctx).commands@ == old(ctx).commands@,
            final(eng).only_touches(*old(eng), Touched { actors: true, abilities: true, passives: true, notebooks: true, ..Touched::nothing() }),
            !mutate || r is Err ==> final(eng).unchanged(*old(eng)),
            final(eng).world.abilities.next_key() == old(eng).world.abilities.next_key(),
            final(eng).world.passives.next_key() == old(eng).world.passives.next_key(),
            final(eng).world.notebooks.next_key() == old(eng).world.notebooks.next_key(),
            r == old(self).answer(*old(eng), *final(eng), *actor, mutate),
            mutate && r is Ok ==> purged(*old(eng), *final(eng), old(self).actor_id),
            old(self).effect(*old(eng), *final(eng), old(ctx).commands@, final(ctx).commands@, *actor, mutate, r),
    {
        actor.require_system()?;
        let target: &Actor = get_actor(eng, self.actor_id)?;
        let ghost e0 = *eng;
        let ghost a = self.actor_id;
        let ghost a0 = e0.world.actors@[a];

        let mut remove_abilities: Vec<ID> = Vec::new();
        let n: usize = target.abilities.len();
        let mut i: usize = 0;
        while i < n
            invariant
                n == a0.abilities@.len(),
                i <= n,
                *target == a0,
                forall|k: ID| #[trigger] remove_abilities@.contains(k) <==> a0.abilities@.take(i as int).contains(k)
                    && e0.world.abilities@[k].ownership_struct.volatile,
            decreases n - i,
        {
            let id: ID = target.abilities[i];
            assert(e0.world.abilities@.contains_key(id));
            let volatile: bool = eng.world.abilities.get(id).unwrap().ownership_struct.volatile;
            let ghost before = remove_abilities@;
            if volatile {
                remove_abilities.push(id);
            }
            proof {
                assert(a0.abilities@.take(i as int + 1) =~= a0.abilities@.take(i as int).push(id));
                assert forall|k: ID| #[trigger] remove_abilities@.contains(k) <==> a0.abilities@.take(i as int + 1).contains(k)
                    && e0.world.abilities@[k].ownership_struct.volatile by {
                    if volatile {
                        assert(remove_abilities@ =~= before.push(id));
                        if before.contains(k) {
                            let w = choose|w: int| 0 <= w < before.len() && before[w] == k;
                            assert(remove_abilities@[w] == k);
                        }
                        if k == id {
                            assert(remove_abilities@[before.len() as int] == k);
                        }
                    }
                    if a0.abilities@.take(i as int).contains(k) {
                        let w = choose|w: int| 0 <= w < i && a0.abilities@.take(i as int)[w] == k;
                        assert(a0.abilities@.take(i as int + 1)[w] == k);
                    }
                    if k == id {
                        assert(a0.abilities@.take(i as int + 1)[i as int] == k);
                    }
                }
            }
            i = i + 1;
        }
        assert(a0.abilities@.take(n as int) =~= a0.abilities@);

        let mut remove_passives: Vec<ID> = Vec::new();
        let n: usize = target.passives.len();
        let mut i: usize = 0;
        while i < n
            invariant
                n == a0.passives@.len(),
                i <= n,
                *target == a0,
                forall|k: ID| #[trigger] remove_passives@.contains(k) <==> a0.passives@.take(i as int).contains(k)
                    && e0.world.passives@[k].ownership_struct.volatile,
            decreases n - i,
        {
            let id: ID = target.passives[i];
            assert(e0.world.passives@.contains_key(id));
            let volatile: bool = eng.world.passives.get(id).unwrap().ownership_struct.volatile;
            let ghost before = remove_passives@;
            if volatile {
                remove_passives.push(id);
            }
            proof {
                assert(a0.passives@.take(i as int + 1) =~= a0.passives@.take(i as int).push(id));
                assert forall|k: ID| #[trigger] remove_passives@.contains(k) <==> a0.passives@.take(i as int + 1).contains(k)
                    && e0.world.passives@[k].ownership_struct.volatile by {
                    if volatile {
                        assert(remove_passives@ =~= before.push(id));
                        if before.contains(k) {
                            let w = choose|w: int| 0 <= w < before.len() && before[w] == k;
                            assert(remove_passives@[w] == k);
                        }
                        if k == id {
                            assert(remove_passives@[before.len() as int] == k);
                        }
                    }
                    if a0.passives@.take(i as int).contains(k) {
                        let w = choose|w: int| 0 <= w < i && a0.passives@.take(i as int)[w] == k;
                        assert(a0.passives@.take(i as int + 1)[w] == k);
                    }
                    if k == id {
                        assert(a0.passives@.take(i as int + 1)[i as int] == k);
                    }
                }
            }
            i = i + 1;
        }
        assert(a0.passives@.take(n as int) =~= a0.passives@);

        let mut remove_notebooks: Vec<ID> = Vec::new();
        let n: usize = target.notebooks.len();
        let mut i: usize = 0;
        while i < n
            invariant
                n == a0.notebooks@.len(),
                i <= n,
                *target == a0,
                forall|k: ID| #[trigger] remove_notebooks@.contains(k) <==> a0.notebooks@.take(i as int).contains(k)
                    && e0.world.notebooks@[k].volatile,
            decreases n - i,
        {
            let id: ID = target.notebooks[i];
            assert(e0.world.notebooks@.contains_key(id));
            let volatile: bool = eng.world.notebooks.get(id).unwrap().volatile;
            let ghost before = remove_notebooks@;
            if volatile {
                remove_notebooks.push(id);
            }
            proof {
                assert(a0.notebooks@.take(i as int + 1) =~= a0.notebooks@.take(i as int).push(id));
                assert forall|k: ID| #[trigger] remove_notebooks@.contains(k) <==> a0.notebooks@.take(i as int + 1).contains(k)
                    && e0.world.notebooks@[k].volatile by {
                    if volatile {
                        assert(remove_notebooks@ =~= before.push(id));
                        if before.contains(k) {
                            let w = choose|w: int| 0 <= w < before.len() && before[w] == k;
                            assert(remove_notebooks@[w] == k);
                        }
                        if k == id {
                            assert(remove_notebooks@[before.len() as int] == k);
                        }
                    }
                    if a0.notebooks@.take(i as int).contains(k) {
                        let w = choose|w: int| 0 <= w < i && a0.notebooks@.take(i as int)[w] == k;
                        assert(a0.notebooks@.take(i as int + 1)[w] == k);
                    }
                    if k == id {
                        assert(a0.notebooks@.take(i as int + 1)[i as int] == k);
                    }
                }
            }
            i = i + 1;
        }
        assert(a0.notebooks@.take(n as int) =~= a0.notebooks@);

        if mutate {
            let m: usize = remove_abilities.len();
            let mut j: usize = 0;
            while j < m
                invariant
                    m == remove_abilities@.len(),
                    j <= m,
                    eng.wf(),
                    eng.only_touches(e0, Touched { actors: true, abilities: true, ..Touched::nothing() }),
                    eng.world.abilities.next_key() == e0.world.abilities.next_key(),
                    same_actor_types(e0.world.actors@, eng.world.actors@),
                    eng.world.actors@ == e0.world.actors@.insert(a, eng.world.actors@[a]),
                    eng.world.actors@[a] == (Actor { abilities: eng.world.actors@[a].abilities, ..a0 }),
                    forall|k: ID| #[trigger] eng.world.actors@[a].abilities@.contains(k) <==> a0.abilities@.contains(k)
                        && !remove_abilities@.take(j as int).contains(k),
                    eng.world.abilities@ == e0.world.abilities@.restrict(
                        e0.world.abilities@.dom().filter(|k: ID| !remove_abilities@.take(j as int).contains(k)),
                    ),
                decreases m - j,
            {
                let id: ID = remove_abilities[j];
                let ghost before = *eng;
                eng.world.remove_ability(id);
                eng.world.actor_remove_ability(self.actor_id, id);
                proof {
                    lemma_same_actor_types(before.world.actors@, eng.world.actors@);
                    lemma_without_contains(before.world.actors@[a].abilities@, id);
                    assert(remove_abilities@.take(j as int + 1) =~= remove_abilities@.take(j as int).push(id));
                    lemma_push_contains(remove_abilities@.take(j as int), id);
                    assert(eng.world.abilities@ =~= e0.world.abilities@.restrict(
                        e0.world.abilities@.dom().filter(|k: ID| !remove_abilities@.take(j as int + 1).contains(k)),
                    ));
                    assert(eng.world.actors@ =~= e0.world.actors@.insert(a, eng.world.actors@[a]));
                }
                j = j + 1;
            }
            assert(remove_abilities@.take(m as int) =~= remove_abilities@);

            let ghost e1 = *eng;
            let m: usize = remove_passives.len();
            let mut j: usize = 0;
            while j < m
                invariant
                    m == remove_passives@.len(),
                    j <= m,
                    eng.wf(),
                    eng.only_touches(e1, Touched { actors: true, passives: true, ..Touched::nothing() }),
                    eng.world.passives.next_key() == e0.world.passives.next_key(),
                    same_actor_types(e1.world.actors@, eng.world.actors@),
                    eng.world.actors@ == e1.world.actors@.insert(a, eng.world.actors@[a]),
                    eng.world.actors@[a] == (Actor { passives: eng.world.actors@[a].passives, ..e1.world.actors@[a] }),
                    forall|k: ID| #[trigger] eng.world.actors@[a].passives@.contains(k) <==> a0.passives@.contains(k)
                        && !remove_passives@.take(j as int).contains(k),
                    eng.world.passives@ == e0.world.passives@.restrict(
                        e0.world.passives@.dom().filter(|k: ID| !remove_passives@.take(j as int).contains(k)),
                    ),
                decreases m - j,
            {
                let id: ID = remove_passives[j];
                let ghost before = *eng;
                eng.world.passives.remove(id);
                eng.world.actor_remove_passive(self.actor_id, id);
                proof {
                    lemma_same_actor_types(before.world.actors@, eng.world.actors@);
                    lemma_without_contains(before.world.actors@[a].passives@, id);
                    assert(remove_passives@.take(j as int + 1) =~= remove_passives@.take(j as int).push(id));
                    lemma_push_contains(remove_passives@.take(j as int), id);
                    assert(eng.world.passives@ =~= e0.world.passives@.restrict(
                        e0.world.passives@.dom().filter(|k: ID| !remove_passives@.take(j as int + 1).contains(k)),
                    ));
                    assert(eng.world.actors@ =~= e1.world.actors@.insert(a, eng.world.actors@[a]));
                }
                j = j + 1;
            }
            assert(remove_passives@.take(m as int) =~= remove_passives@);

            let ghost e2 = *eng;
            let m: usize = remove_notebooks.len();
            let mut j: usize = 0;
            while j < m
                invariant
                    m == remove_notebooks@.len(),
                    j <= m,
                    eng.wf(),
                    eng.only_touches(e2, Touched { actors: true, notebooks: true, ..Touched::nothing() }),
                    eng.world.notebooks.next_key() == e0.world.notebooks.next_key(),
                    same_actor_types(e2.world.actors@, eng.world.actors@),
                    eng.world.actors@ == e2.world.actors@.insert(a, eng.world.actors@[a]),
                    eng.world.actors@[a] == (Actor { notebooks: eng.world.actors@[a].notebooks, ..e2.world.actors@[a] }),
                    forall|k: ID| #[trigger] eng.world.actors@[a].notebooks@.contains(k) <==> a0.notebooks@.contains(k)
                        && !remove_notebooks@.take(j as int).contains(k),
                    eng.world.notebooks@ == e0.world.notebooks@.restrict(
                        e0.world.notebooks@.dom().filter(|k: ID| !remove_notebooks@.take(j as int).contains(k)),
                    ),
                decreases m - j,
            {
                let id: ID = remove_notebooks[j];
                let ghost before = *eng;
                eng.world.notebooks.remove(id);
                eng.world.actor_remove_notebook(self.actor_id, id);
                proof {
                    lemma_same_actor_types(before.world.actors@, eng.world.actors@);
                    lemma_without_contains(before.world.actors@[a].notebooks@, id);
                    assert(remove_notebooks@.take(j as int + 1) =~= remove_notebooks@.take(j as int).push(id));
                    lemma_push_contains(remove_notebooks@.take(j as int), id);
                    assert(eng.world.notebooks@ =~= e0.world.notebooks@.restrict(
                        e0.world.notebooks@.dom().filter(|k: ID| !remove_notebooks@.take(j as int + 1).contains(k)),
                    ));
                    assert(eng.world.actors@ =~= e2.world.actors@.insert(a, eng.world.actors@[a]));
                }
                j = j + 1;
            }
            assert(remove_notebooks@.take(m as int) =~= remove_notebooks@);
            proof {
                assert(eng.world.abilities@ =~= e0.world.abilities@.restrict(e0.world.abilities@.dom().filter(|k: ID| !purged_ability(e0, a, k))));
                assert(eng.world.passives@ =~= e0.world.passives@.restrict(e0.world.passives@.dom().filter(|k: ID| !purged_passive(e0, a, k))));
                assert(eng.world.notebooks@ =~= e0.world.notebooks@.restrict(e0.world.notebooks@.dom().filter(|k: ID| !purged_notebook(e0, a, k))));
                assert(eng.world.actors@ =~= e0.world.actors@.insert(a, eng.world.actors@[a]));
            }
        }
        Ok(ActionResponse::PurgeVolatiles(PurgeVolatilesResponse {}))
    }
}

} // verus!
