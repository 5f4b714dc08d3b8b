use vstd::prelude::*;

use crate::action::{CommandPacket, ActionActor, ActionContext, ActionError, ActionResponse, ActionResult};
use crate::actor::{Actor, ActorLink, ActorType};
use crate::common::{ID, Version};
use crate::config::RoleActorLink;
use crate::engine::{actor_is_player, lemma_same_actor_types, same_actor_types, Engine, Touched};
use crate::helpers::get_role_config;

verus! {

#[derive(PartialEq, Eq, Structural, Clone, Debug)]
pub struct CreateActorLinksResponse {}

/// System action: give every player the links its role config asks for: for each actor
/// link of the role, a link to every other player of the linked role (links already there
/// are not repeated).
#[derive(PartialEq, Eq, Structural, Clone, Debug)]
pub struct CreateActorLinks {}

/// The links that role link `rl` gives player `k`, to the players among the first `n`
/// actor keys, in key order.
pub open spec fn role_links_from(actors: Map<ID, Actor>, k: ID, rl: RoleActorLink, n: nat) -> Seq<ActorLink>
    decreases n,
{
    if n == 0 {
        Seq::<ActorLink>::empty()
    } else {
        let prev = role_links_from(actors, k, rl, (n - 1) as nat);
        let j = (n - 1) as ID;
        if j != k && actor_is_player(actors, j) && actors[j].actor_type->Player_0.role == rl.role {
            prev.push(ActorLink { link_type: rl.link_type, link_dest: j })
        } else {
            prev
        }
    }
}

/// The links that the role links `rls` give player `k`, in order.
pub open spec fn wanted_links(actors: Map<ID, Actor>, k: ID, rls: Seq<RoleActorLink>, n: nat) -> Seq<ActorLink>
    decreases rls.len(),
{
    if rls.len() == 0 {
        Seq::<ActorLink>::empty()
    } else {
        wanted_links(actors, k, rls.drop_last(), n) + role_links_from(actors, k, rls.last(), n)
    }
}

/// A list of links after each link of `w` is added in turn (unless already there).
pub open spec fn links_added(l: Seq<ActorLink>, w: Seq<ActorLink>) -> Seq<ActorLink>
    decreases w.len(),
{
    if w.len() == 0 {
        l
    } else {
        let prev = links_added(l, w.drop_last());
        if prev.contains(w.last()) { prev } else { prev.push(w.last()) }
    }
}

/// Whether every player of `e` has a role config.
pub open spec fn roles_configured(e: Engine) -> bool {
    forall|k: ID| #[trigger] e.world.is_player(k) ==> e.config.role_spec(e.world.player(k).role) is Some
}

/// The links player `k` gets.
pub open spec fn links_of(e: Engine, k: ID) -> Seq<ActorLink> {
    wanted_links(
        e.world.actors@,
        k,
        e.config.role_spec(e.world.player(k).role)->0.actor_links@,
        e.world.actors.next_key() as nat,
    )
}

proof fn lemma_role_links_stable(a: Map<ID, Actor>, b: Map<ID, Actor>, k: ID, rl: RoleActorLink, n: nat)
    requires
        same_actor_types(a, b),
    ensures
        role_links_from(a, k, rl, n) == role_links_from(b, k, rl, n),
    decreases n,
{
    lemma_same_actor_types(a, b);
    if n > 0 {
        lemma_role_links_stable(a, b, k, rl, (n - 1) as nat);
        let j = (n - 1) as ID;
        if actor_is_player(a, j) {
            assert(a[j].actor_type == b[j].actor_type);
        }
    }
}

proof fn lemma_wanted_links_stable(a: Map<ID, Actor>, b: Map<ID, Actor>, k: ID, rls: Seq<RoleActorLink>, n: nat)
    requires
        same_actor_types(a, b),
    ensures
        wanted_links(a, k, rls, n) == wanted_links(b, k, rls, n),
    decreases rls.len(),
{
    if rls.len() > 0 {
        lemma_wanted_links_stable(a, b, k, rls.drop_last(), n);
        lemma_role_links_stable(a, b, k, rls.last(), n);
    }
}

/// The links a player gets depend only on the config, the actor keys and the actors'
/// kinds and roles.
pub proof fn lemma_links_of_stable(e0: Engine, e1: Engine, k: ID)
    requires
        e1.config == e0.config,
        e1.world.actors.next_key() == e0.world.actors.next_key(),
        same_actor_types(e0.world.actors@, e1.world.actors@),
        e0.world.is_player(k),
    ensures
        links_of(e1, k) == links_of(e0, k),
{
    assert(e1.world.actors@[k].actor_type == e0.world.actors@[k].actor_type);
    lemma_wanted_links_stable(
        e0.world.actors@,
        e1.world.actors@,
        k,
        e0.config.role_spec(e0.world.player(k).role)->0.actor_links@,
        e0.world.actors.next_key() as nat,
    );
}

impl CreateActorLinks {
    /// What the handler does besides answering: its effect on the engine (from `e0` to
    /// `e1`) and on the commands (from `c0` to `c1`), given its answer `r`.
    pub open spec fn effect(
        &self,
        e0: Engine,
        e1: Engine,
        c0: Seq<CommandPacket>,
        c1: Seq<CommandPacket>,
        actor: ActionActor,
        mutate: bool,
        r: ActionResult,
    ) -> bool {
        &&& (e1.wf())
        &&& (c1 =~= c0)
        &&& (e1.only_touches(e0, Touched { actors: true, ..Touched::nothing() }))
        &&& (!mutate || r is Err ==> e1.unchanged(e0))
        &&& (mutate && r is Ok ==> {
            let a0 = e0.world.actors@;
            let a1 = e1.world.actors@;
            &&& a1.dom() == a0.dom()
            &&& forall|k: ID| #[trigger] a1.contains_key(k) ==> a1[k] == (Actor { links: a1[k].links, ..a0[k] })
            &&& forall|k: ID| #[trigger] a1.contains_key(k) ==> a1[k].links@ =~= if e0.world.is_player(k) {
                links_added(a0[k].links@, links_of(e0, k))
            } else {
                a0[k].links@
            }
        })
    }

    /// The answer to a request from `actor`, from the engine before (`e0`) and after (`e1`)
    /// the handler runs.
    pub open spec fn answer(&self, e0: Engine, e1: Engine, actor: ActionActor, mutate: bool) -> ActionResult {
        if !(actor is System) {
            Err::<ActionResponse, ActionError>(ActionError::RequiresSystem)
        } else if !roles_configured(e0) {
            Err(ActionError::RoleConfigNotFound)
        } else {
            Ok(ActionResponse::CreateActorLinks(CreateActorLinksResponse {}))
        }
    }

    #[verifier::loop_isolation(false)]
    pub fn handle(
        &mut self,
        eng: &mut Engine,
        ctx: &mut ActionContext,
        actor: &ActionActor,
        version: Version,
        mutate: bool,
    ) -> (r: ActionResult)
        requires
            old(eng).wf(),
        ensures
            final(eng).wf(),
            *final(self) == *old(self),
            final(ctx).commands@ == old(ctx).commands@,
            final(eng).only_touches(*old(eng), Touched { actors: true, ..Touched::nothing() }),
            !mutate || r is Err ==> final(eng).unchanged(*old(eng)),
            r == old(self).answer(*old(eng), *final(eng), *actor, mutate),
            final(eng).world.actors.next_key() == old(eng).world.actors.next_key(),
            mutate && r is Ok ==> {
                let a0 = old(eng).world.actors@;
                let a1 = final(eng).world.actors@;
                &&& a1.dom() == a0.dom()
                &&& forall|k: ID| #[trigger] a1.contains_key(k) ==> a1[k] == (Actor { links: a1[k].links, ..a0[k] })
                &&& forall|k: ID| #[trigger] a1.contains_key(k) ==> a1[k].links@ == if old(eng).world.is_player(k) {
                    links_added(a0[k].links@, links_of(*old(eng), k))
                } else {
                    a0[k].links@
                }
            },
            old(self).effect(*old(eng), *final(eng), old(ctx).commands@, final(ctx).commands@, *actor, mutate, r),
    {
        actor.require_system()?;
        let ghost e0 = *eng;
        let n: usize = eng.world.actors.len_slots();

        let mut k: usize = 0;
        while k < n
            invariant
                k <= n,
                n == e0.world.actors.next_key(),
                *eng == e0,
                forall|q: ID| (q as int) < k && #[trigger] e0.world.is_player(q) ==> e0.config.role_spec(e0.world.player(q).role) is Some,
            decreases n - k,
        {
            if let Some(a) = eng.world.actors.get(k as ID) {
                if let ActorType::Player(p) = &a.actor_type {
                    let found = get_role_config(eng, p.role);
                    if found.is_err() {
                        proof {
                            assert(e0.world.is_player(k as ID));
                        }
                        return Err(ActionError::RoleConfigNotFound);
                    }
                }
            }
            k = k + 1;
        }
        proof {
            assert forall|q: ID| #[trigger] e0.world.is_player(q) implies e0.config.role_spec(e0.world.player(q).role) is Some by {
                e0.world.actors.lemma_keys_below_next(q);
            }
        }
        if !mutate {
            return Ok(ActionResponse::CreateActorLinks(CreateActorLinksResponse {}));
        }

        let mut k: usize = 0;
        while k < n
            invariant
                k <= n,
                n == e0.world.actors.next_key(),
                eng.wf(),
                eng.only_touches(e0, Touched { actors: true, ..Touched::nothing() }),
                eng.world.actors.next_key() == e0.world.actors.next_key(),
                eng.config == e0.config,
                same_actor_types(e0.world.actors@, eng.world.actors@),
                forall|q: ID| #[trigger] eng.world.actors@.contains_key(q) ==> eng.world.actors@[q] == (Actor {
                    links: eng.world.actors@[q].links,
                    ..e0.world.actors@[q]
                }),
                forall|q: ID| #[trigger] eng.world.actors@.contains_key(q) ==> eng.world.actors@[q].links@ == if (q as int) < k
                    && e0.world.is_player(q) {
                    links_added(e0.world.actors@[q].links@, links_of(e0, q))
                } else {
                    e0.world.actors@[q].links@
                },
            decreases n - k,
        {
            let key: ID = k as ID;
            let role = match eng.world.actors.get(key) {
                Some(a) => match &a.actor_type {
                    ActorType::Player(p) => Some(p.role),
                    ActorType::Organization(_) => None,
                },
                None => None,
            };
            if let Some(role) = role {
                let ghost actors0 = e0.world.actors@;
                proof {
                    lemma_same_actor_types(e0.world.actors@, eng.world.actors@);
                    assert(e0.world.is_player(key));
                }
                let rc = get_role_config(eng, role).unwrap();
                let ghost rls = rc.actor_links@;
                let nr: usize = rc.actor_links.len();
                let mut wanted: Vec<ActorLink> = Vec::new();
                let mut r: usize = 0;
                proof {
                    lemma_same_actor_types(e0.world.actors@, eng.world.actors@);
                    assert(rls.take(0) =~= Seq::<RoleActorLink>::empty());
                }
                while r < nr
                    invariant
                        r <= nr,
                        nr == rls.len(),
                        wanted@ == wanted_links(actors0, key, rls.take(r as int), n as nat),
                    decreases nr - r,
                {
                    let rl: RoleActorLink = rc.actor_links[r];
                    let mut j: usize = 0;
                    let ghost base = wanted@;
                    while j < n
                        invariant
                            j <= n,
                            wanted@ == base + role_links_from(actors0, key, rl, j as nat),
                        decreases n - j,
                    {
                        let other: ID = j as ID;
                        if other != key {
                            if let Some(o) = eng.world.actors.get(other) {
                                if let ActorType::Player(op) = &o.actor_type {
                                    if op.role == rl.role {
                                        wanted.push(ActorLink { link_type: rl.link_type, link_dest: other });
                                    }
                                }
                            }
                        }
                        proof {
                            assert(actor_is_player(eng.world.actors@, other) == actor_is_player(actors0, other));
                        }
                        j = j + 1;
                    }
                    proof {
                        assert(rls.take(r as int + 1).drop_last() =~= rls.take(r as int));
                        assert(rls.take(r as int + 1).last() == rl);
                    }
                    r = r + 1;
                }
                proof {
                    assert(rls.take(nr as int) =~= rls);
                }
                let ghost before = *eng;
                let mut target: Actor = eng.world.actors.take(key).unwrap();
                let m: usize = wanted.len();
                let mut i: usize = 0;
                while i < m
                    invariant
                        i <= m,
                        m == wanted@.len(),
                        target == (Actor { links: target.links, ..before.world.actors@[key] }),
                        target.links@ == links_added(before.world.actors@[key].links@, wanted@.take(i as int)),
                    decreases m - i,
                {
                    target.add_link(wanted[i]);
                    proof {
                        assert(wanted@.take(i as int + 1).drop_last() =~= wanted@.take(i as int));
                    }
                    i = i + 1;
                }
                proof {
                    assert(wanted@.take(m as int) =~= wanted@);
                }
                eng.world.actors.put(key, target);
                proof {
                    assert(eng.world.actors@ =~= before.world.actors@.insert(key, eng.world.actors@[key]));
                    lemma_same_actor_types(before.world.actors@, eng.world.actors@);
                }
            }
            k = k + 1;
        }
        proof {
            assert forall|q: ID| #[trigger] eng.world.actors@.contains_key(q) implies (q as int) < n by {
                e0.world.actors.lemma_keys_below_next(q);
            }
        }
        Ok(ActionResponse::CreateActorLinks(CreateActorLinksResponse {}))
    }
}

} // verus!
