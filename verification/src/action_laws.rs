use vstd::prelude::*;

use crate::ability::{
    add_volatile_links, first_link_to, has_link_to, kind_of, links_after_add, without_first_link_to, AbilityPoolLink,
};
use crate::action::ability::create_and_give_ability::CreateAndGiveAbility;
use crate::action::ability::give_ability::{ability_given, GiveAbility};
use crate::action::ability::remove_link::lemma_strip_own_dests;
use crate::action::actor::player::kill::Kill;
use crate::action::actor::player::notebook_scheduled_kill::NotebookScheduledKill;
use crate::action::actor::player::schedule_kill::ScheduleKill;
use crate::action::comms::lounge::create_lounge::CreateLounge;
use crate::action::{Action, ActionActor, ActionResult, CommandPacket};
use crate::action::create_actor_links::{links_added, role_links_from, wanted_links, CreateActorLinks};
use crate::actor::{Actor, ActorLink};
use crate::config::RoleActorLink;
use crate::engine::actor_is_player;
use crate::channel::SenderDisplay;
use crate::chargepool::PoolLink;
use crate::config::{ConfigPoolLink, ConfigPoolLinkDetails};
use crate::common::ID;
use crate::engine::Engine;
use crate::lounge::{Lounge, LoungeVariant};
use crate::actor::Modifier;

verus! {

/// A new lounge lets each participant speak as the sides it plays: in a fake lounge the
/// creator may send as the contacted player and as the contactor; in a basic lounge each
/// of the two players may send as itself.
pub proof fn law_lounge_participants_speak_as_their_sides(
    cl: CreateLounge,
    e0: Engine,
    e1: Engine,
    c0: Seq<CommandPacket>,
    c1: Seq<CommandPacket>,
    actor: ActionActor,
    r: ActionResult,
)
    requires
        cl.effect(e0, e1, c0, c1, actor, true, r),
        r is Ok,
    ensures
        ({
            let ch = e1.world.channels@[e0.world.channels.next_key() as ID];
            &&& cl.variant matches LoungeVariant::Fake { creator_id, contacted_id, contactor_id } ==> {
                &&& ch.member(creator_id) is Some
                &&& ch.member(creator_id)->0.display_list().contains(SenderDisplay::Raw(contacted_id))
                &&& ch.member(creator_id)->0.display_list().contains(SenderDisplay::Raw(contactor_id))
                &&& forall|d: SenderDisplay| #[trigger] ch.member(creator_id)->0.display_list().contains(d)
                    ==> d == SenderDisplay::Raw(contacted_id) || d == SenderDisplay::Raw(contactor_id)
                &&& forall|q: ID| q != creator_id ==> #[trigger] ch.member(q) is None
            }
            &&& cl.variant matches LoungeVariant::Basic { contacted_id, contactor_id } ==> {
                &&& ch.member(contacted_id) is Some
                &&& ch.member(contacted_id)->0.display_list() == seq![SenderDisplay::Raw(contacted_id)]
                &&& ch.member(contactor_id) is Some
                &&& ch.member(contactor_id)->0.display_list() == seq![SenderDisplay::Raw(contactor_id)]
                &&& forall|q: ID| q != contacted_id && q != contactor_id ==> #[trigger] ch.member(q) is None
            }
        }),
{
    let ch = e1.world.channels@[e0.world.channels.next_key() as ID];
    match cl.variant {
        LoungeVariant::Fake { creator_id, contacted_id, contactor_id } => {
            let ps = seq![creator_id];
            assert(ps[0] == creator_id);
            assert(ps.contains(creator_id));
            let ds = seq![SenderDisplay::Raw(contacted_id)];
            assert(ds[0] == SenderDisplay::Raw(contacted_id));
            lemma_push_contains_any(ds, SenderDisplay::Raw(contactor_id));
            assert forall|d: SenderDisplay| #[trigger] ds.contains(d) implies d == SenderDisplay::Raw(contacted_id) by {
                let i = choose|i: int| 0 <= i < ds.len() && ds[i] == d;
            }
            assert forall|q: ID| q != creator_id implies #[trigger] ch.member(q) is None by {
                if ps.contains(q) {
                    let i = choose|i: int| 0 <= i < ps.len() && ps[i] == q;
                }
            }
        },
        LoungeVariant::Basic { contacted_id, contactor_id } => {
            let ps = seq![contactor_id, contacted_id];
            assert(ps[0] == contactor_id && ps[1] == contacted_id);
            assert(ps.contains(contactor_id) && ps.contains(contacted_id));
            assert forall|q: ID| q != contacted_id && q != contactor_id implies #[trigger] ch.member(q) is None by {
                if ps.contains(q) {
                    let i = choose|i: int| 0 <= i < ps.len() && ps[i] == q;
                }
            }
            assert(seq![SenderDisplay::Raw(contacted_id)][0] == SenderDisplay::Raw(contacted_id));
            assert(seq![SenderDisplay::Raw(contactor_id)][0] == SenderDisplay::Raw(contactor_id));
        },
    }
}

/// A scheduled kill adds exactly one job, at the end: the requested kill, unchanged, run by
/// the system at the requested time (wrapped as a notebook's kill when a notebook
/// scheduled it).
pub proof fn law_scheduled_kill_is_the_requested_kill(
    s: ScheduleKill,
    e0: Engine,
    e1: Engine,
    c0: Seq<CommandPacket>,
    c1: Seq<CommandPacket>,
    actor: ActionActor,
    r: ActionResult,
)
    requires
        s.effect(e0, e1, c0, c1, actor, true, r),
        r is Ok,
    ensures
        e1.jobs@.len() == e0.jobs@.len() + 1,
        e1.jobs@.drop_last() == e0.jobs@,
        e1.jobs@.last().actor == ActionActor::System,
        e1.jobs@.last().timestamp == s.timestamp,
        !s.notebook_scheduled ==> e1.jobs@.last().payload == Action::Kill(s.kill),
        s.notebook_scheduled ==> e1.jobs@.last().payload == Action::NotebookScheduledKill(
            NotebookScheduledKill { kill: s.kill },
        ),
        e1.jobs@.last().payload matches Action::Kill(k) ==> k.target_id == s.kill.target_id
            && k.killer_id == s.kill.killer_id && k.silent == s.kill.silent
            && k.death_message == s.kill.death_message,
{
    assert(e1.jobs@.drop_last() =~= e0.jobs@);
}

/// The first link of a list to a pool it has a link to is a link to that pool.
proof fn lemma_first_link_to(s: Seq<AbilityPoolLink>, d: ID)
    requires
        has_link_to(s, d),
    ensures
        0 <= first_link_to(s, d) < s.len(),
        s[first_link_to(s, d)].link.link_dest == d,
{
    lemma_some_first_link(s, d, s.len() as int);
}

proof fn lemma_some_first_link(s: Seq<AbilityPoolLink>, d: ID, k: int)
    requires
        0 <= k <= s.len(),
        exists|i: int| 0 <= i < k && #[trigger] s[i].link.link_dest == d,
    ensures
        exists|i: int|
            0 <= i < s.len() && s[i].link.link_dest == d && forall|j: int|
                0 <= j < i ==> #[trigger] s[j].link.link_dest != d,
    decreases k,
{
    if exists|i: int| 0 <= i < k - 1 && #[trigger] s[i].link.link_dest == d {
        lemma_some_first_link(s, d, k - 1);
    } else {
        assert(s[k - 1].link.link_dest == d);
        assert forall|j: int| 0 <= j < k - 1 implies #[trigger] s[j].link.link_dest != d by {}
    }
}

/// A list with the item at `f` removed holds every other item of the list, and nothing
/// new.
proof fn lemma_remove_contains(s: Seq<AbilityPoolLink>, f: int)
    requires
        0 <= f < s.len(),
    ensures
        forall|i: int| 0 <= i < s.len() && i != f ==> s.remove(f).contains(#[trigger] s[i]),
        forall|l: AbilityPoolLink| #[trigger] s.remove(f).contains(l) ==> s.contains(l),
{
    let r = s.remove(f);
    assert(r.len() == s.len() - 1);
    assert forall|i: int| 0 <= i < s.len() && i != f implies r.contains(#[trigger] s[i]) by {
        if i < f {
            assert(r[i] == s[i]);
        } else {
            assert(r[i - 1] == s[i]);
        }
    }
    assert forall|l: AbilityPoolLink| #[trigger] r.contains(l) implies s.contains(l) by {
        let i = choose|i: int| 0 <= i < r.len() && r[i] == l;
        if i < f {
            assert(s[i] == l);
        } else {
            assert(s[i + 1] == l);
        }
    }
}

/// Dropping the first link to pool `d` keeps every link to another pool and brings
/// nothing new.
#[verifier::spinoff_prover]
proof fn lemma_without_first_link_to(s: Seq<AbilityPoolLink>, d: ID)
    ensures
        forall|l: AbilityPoolLink| s.contains(l) && l.link.link_dest != d
            ==> #[trigger] without_first_link_to(s, d).contains(l),
        forall|l: AbilityPoolLink| #[trigger] without_first_link_to(s, d).contains(l) ==> s.contains(l),
{
    if has_link_to(s, d) {
        lemma_first_link_to(s, d);
        let f = first_link_to(s, d);
        lemma_remove_contains(s, f);
        assert forall|l: AbilityPoolLink| s.contains(l) && l.link.link_dest != d
            implies #[trigger] s.remove(f).contains(l) by {
            let i = choose|i: int| 0 <= i < s.len() && s[i] == l;
            assert(i != f);
        }
    }
}

/// Adding a link keeps it, keeps every link to another pool, and brings nothing else.
proof fn lemma_links_after_add(s: Seq<AbilityPoolLink>, n: AbilityPoolLink)
    ensures
        links_after_add(s, n).contains(n),
        forall|l: AbilityPoolLink| s.contains(l) && l.link.link_dest != n.link.link_dest
            ==> #[trigger] links_after_add(s, n).contains(l),
        forall|l: AbilityPoolLink| #[trigger] links_after_add(s, n).contains(l) ==> s.contains(l) || l == n,
{
    lemma_without_first_link_to(s, n.link.link_dest);
    lemma_push_contains_any(without_first_link_to(s, n.link.link_dest), n);
}

/// The volatile link that a pool link becomes on a gift.
pub open spec fn as_volatile(l: PoolLink) -> AbilityPoolLink {
    AbilityPoolLink { volatile: true, link: l }
}

/// Adding the links `nl` as volatile links keeps, of each, at least the last to its pool,
/// and brings nothing but them.
proof fn lemma_add_volatile_links(ls: Seq<AbilityPoolLink>, nl: Seq<PoolLink>)
    ensures
        forall|i: int| 0 <= i < nl.len() && (forall|j: int| i < j < nl.len() ==> nl[j].link_dest != nl[i].link_dest)
            ==> #[trigger] add_volatile_links(ls, nl).contains(as_volatile(nl[i])),
        forall|l: AbilityPoolLink| #[trigger] add_volatile_links(ls, nl).contains(l)
            ==> ls.contains(l) || exists|i: int| 0 <= i < nl.len() && l == as_volatile(#[trigger] nl[i]),
    decreases nl.len(),
{
    if nl.len() > 0 {
        let prev = nl.drop_last();
        let n = nl.len() - 1;
        lemma_add_volatile_links(ls, prev);
        let s = add_volatile_links(ls, prev);
        lemma_links_after_add(s, as_volatile(nl[n]));
        assert(as_volatile(nl.last()) == as_volatile(nl[n]));
        assert forall|i: int| 0 <= i < nl.len() && (forall|j: int| i < j < nl.len() ==> nl[j].link_dest != nl[i].link_dest)
            implies #[trigger] add_volatile_links(ls, nl).contains(as_volatile(nl[i])) by {
            if i < n {
                assert(prev[i] == nl[i]);
                assert forall|j: int| i < j < prev.len() implies prev[j].link_dest != prev[i].link_dest by {
                    assert(prev[j] == nl[j]);
                }
                assert(s.contains(as_volatile(prev[i])));
                assert(nl[n].link_dest != nl[i].link_dest);
            }
        }
        assert forall|l: AbilityPoolLink| #[trigger] add_volatile_links(ls, nl).contains(l)
            implies ls.contains(l) || exists|i: int| 0 <= i < nl.len() && l == as_volatile(#[trigger] nl[i]) by {
            if l == as_volatile(nl[n]) {
            } else if !ls.contains(l) {
                assert(s.contains(l));
                let i = choose|i: int| 0 <= i < prev.len() && l == as_volatile(#[trigger] prev[i]);
                assert(prev[i] == nl[i]);
            }
        }
    }
}

/// The pool of actor `a` that a config link names.
pub open spec fn named_pool(a: Actor, l: ConfigPoolLink) -> ID {
    match l.details {
        ConfigPoolLinkDetails::Actor(n) => a.pool_spec(n)->0,
    }
}

/// Giving an ability links it to the new owner's pools as its config says: for each
/// default link of the config (the last one to each pool), the ability gets a volatile link
/// of the same type and weight to the owner's pool of that name.  Every volatile link it
/// then has is such a link; every other link it had before.
pub proof fn law_gift_links_follow_config(g: GiveAbility, e0: Engine, e1: Engine)
    requires
        ability_given(e0, e1, g.ability_id, g.actor_id, g.volatile),
    ensures
        ({
            let a0 = e0.world.abilities@[g.ability_id];
            let a1 = e1.world.abilities@[g.ability_id];
            let owner = e0.world.actors@[g.actor_id];
            let cl = e0.config.ability_spec(kind_of(a0))->0.default_links@;
            &&& forall|i: int| 0 <= i < cl.len()
                && (forall|j: int| i < j < cl.len() ==> named_pool(owner, cl[j]) != named_pool(owner, cl[i]))
                ==> #[trigger] a1.links().contains(AbilityPoolLink {
                    volatile: true,
                    link: PoolLink { link_type: cl[i].link_type, link_dest: named_pool(owner, cl[i]), weight: cl[i].weight },
                })
            &&& forall|l: AbilityPoolLink| #[trigger] a1.links().contains(l) && l.volatile ==> exists|i: int|
                0 <= i < cl.len() && l.link == (PoolLink {
                    link_type: (#[trigger] cl[i]).link_type,
                    link_dest: named_pool(owner, cl[i]),
                    weight: cl[i].weight,
                })
            &&& forall|l: AbilityPoolLink| #[trigger] a1.links().contains(l) && !l.volatile ==> a0.links().contains(l)
        }),
{
    let a0 = e0.world.abilities@[g.ability_id];
    let a1 = e1.world.abilities@[g.ability_id];
    let owner = e0.world.actors@[g.actor_id];
    let cl = e0.config.ability_spec(kind_of(a0))->0.default_links@;
    let nl = crate::action::ability::give_ability::config_pool_links(cl, owner);
    let stripped = crate::action::ability::remove_link::strip_links(a0.links(), crate::ability::link_dests(a0.links(), true));
    lemma_add_volatile_links(stripped, nl);
    lemma_strip_own_dests(a0.links(), true);
    assert forall|i: int| 0 <= i < cl.len() implies nl[i] == (PoolLink {
        link_type: (#[trigger] cl[i]).link_type,
        link_dest: named_pool(owner, cl[i]),
        weight: cl[i].weight,
    }) by {}
    assert forall|i: int| 0 <= i < cl.len()
        && (forall|j: int| i < j < cl.len() ==> named_pool(owner, cl[j]) != named_pool(owner, cl[i]))
        implies #[trigger] a1.links().contains(AbilityPoolLink {
            volatile: true,
            link: PoolLink { link_type: cl[i].link_type, link_dest: named_pool(owner, cl[i]), weight: cl[i].weight },
        }) by {
        assert forall|j: int| i < j < nl.len() implies nl[j].link_dest != nl[i].link_dest by {
            assert(nl[j].link_dest == named_pool(owner, cl[j]));
        }
        assert(add_volatile_links(stripped, nl).contains(as_volatile(nl[i])));
    }
    assert forall|l: AbilityPoolLink| #[trigger] a1.links().contains(l) && l.volatile implies exists|i: int|
        0 <= i < cl.len() && l.link == (PoolLink {
            link_type: (#[trigger] cl[i]).link_type,
            link_dest: named_pool(owner, cl[i]),
            weight: cl[i].weight,
        }) by {
        assert(!stripped.contains(l));
        let i = choose|i: int| 0 <= i < nl.len() && l == as_volatile(#[trigger] nl[i]);
        assert(nl[i] == (PoolLink { link_type: cl[i].link_type, link_dest: named_pool(owner, cl[i]), weight: cl[i].weight }));
    }
    assert forall|l: AbilityPoolLink| #[trigger] a1.links().contains(l) && !l.volatile implies a0.links().contains(l) by {
        if !stripped.contains(l) {
            let i = choose|i: int| 0 <= i < nl.len() && l == as_volatile(#[trigger] nl[i]);
        }
    }
}

/// A new ability given to an actor is linked to the actor's pools as its config says:
/// for each default link (the last one to each pool) a volatile link of the same type and
/// weight to the actor's pool of that name, and no other link.
pub proof fn law_new_ability_links_follow_config(
    g: CreateAndGiveAbility,
    e0: Engine,
    e1: Engine,
    c0: Seq<CommandPacket>,
    c1: Seq<CommandPacket>,
    actor: ActionActor,
    r: ActionResult,
)
    requires
        g.effect(e0, e1, c0, c1, actor, true, r),
        r is Ok,
    ensures
        ({
            let a1 = e1.world.abilities@[e0.world.abilities.next_key() as ID];
            let owner = e0.world.actors@[g.actor_id];
            let cl = e0.config.ability_spec(crate::config::AbilityIdentifier { name: g.ability_name, variant: g.variant })->0.default_links@;
            &&& forall|i: int| 0 <= i < cl.len()
                && (forall|j: int| i < j < cl.len() ==> named_pool(owner, cl[j]) != named_pool(owner, cl[i]))
                ==> #[trigger] a1.links().contains(AbilityPoolLink {
                    volatile: true,
                    link: PoolLink { link_type: cl[i].link_type, link_dest: named_pool(owner, cl[i]), weight: cl[i].weight },
                })
            &&& forall|l: AbilityPoolLink| #[trigger] a1.links().contains(l) ==> l.volatile && exists|i: int|
                0 <= i < cl.len() && l.link == (PoolLink {
                    link_type: (#[trigger] cl[i]).link_type,
                    link_dest: named_pool(owner, cl[i]),
                    weight: cl[i].weight,
                })
        }),
{
    let a1 = e1.world.abilities@[e0.world.abilities.next_key() as ID];
    let owner = e0.world.actors@[g.actor_id];
    let cl = e0.config.ability_spec(g.kind())->0.default_links@;
    let nl = crate::action::ability::give_ability::config_pool_links(cl, owner);
    lemma_add_volatile_links(Seq::<AbilityPoolLink>::empty(), nl);
    assert forall|i: int| 0 <= i < cl.len() implies nl[i] == (PoolLink {
        link_type: (#[trigger] cl[i]).link_type,
        link_dest: named_pool(owner, cl[i]),
        weight: cl[i].weight,
    }) by {}
    assert forall|i: int| 0 <= i < cl.len()
        && (forall|j: int| i < j < cl.len() ==> named_pool(owner, cl[j]) != named_pool(owner, cl[i]))
        implies #[trigger] a1.links().contains(AbilityPoolLink {
            volatile: true,
            link: PoolLink { link_type: cl[i].link_type, link_dest: named_pool(owner, cl[i]), weight: cl[i].weight },
        }) by {
        assert forall|j: int| i < j < nl.len() implies nl[j].link_dest != nl[i].link_dest by {
            assert(nl[j].link_dest == named_pool(owner, cl[j]));
        }
        assert(add_volatile_links(Seq::<AbilityPoolLink>::empty(), nl).contains(as_volatile(nl[i])));
    }
    assert forall|l: AbilityPoolLink| #[trigger] a1.links().contains(l) implies l.volatile && exists|i: int|
        0 <= i < cl.len() && l.link == (PoolLink {
            link_type: (#[trigger] cl[i]).link_type,
            link_dest: named_pool(owner, cl[i]),
            weight: cl[i].weight,
        }) by {
        let i = choose|i: int| 0 <= i < nl.len() && l == as_volatile(#[trigger] nl[i]);
        assert(nl[i] == (PoolLink { link_type: cl[i].link_type, link_dest: named_pool(owner, cl[i]), weight: cl[i].weight }));
    }
}

proof fn lemma_push_contains_any<A>(s: Seq<A>, a: A)
    ensures
        forall|x: A| #[trigger] s.push(a).contains(x) <==> s.contains(x) || x == a,
{
    assert forall|x: A| #[trigger] s.push(a).contains(x) <==> s.contains(x) || x == a by {
        if s.contains(x) {
            let i = choose|i: int| 0 <= i < s.len() && s[i] == x;
            assert(s.push(a)[i] == x);
        }
        if x == a {
            assert(s.push(a)[s.len() as int] == a);
        }
        if s.push(a).contains(x) {
            let i = choose|i: int| 0 <= i < s.len() + 1 && s.push(a)[i] == x;
            if i < s.len() {
                assert(s[i] == x);
            }
        }
    }
}

proof fn lemma_concat_contains<A>(s: Seq<A>, t: Seq<A>)
    ensures
        forall|x: A| #[trigger] (s + t).contains(x) <==> s.contains(x) || t.contains(x),
{
    assert forall|x: A| #[trigger] (s + t).contains(x) <==> s.contains(x) || t.contains(x) by {
        if s.contains(x) {
            let i = choose|i: int| 0 <= i < s.len() && s[i] == x;
            assert((s + t)[i] == x);
        }
        if t.contains(x) {
            let i = choose|i: int| 0 <= i < t.len() && t[i] == x;
            assert((s + t)[s.len() + i] == x);
        }
        if (s + t).contains(x) {
            let i = choose|i: int| 0 <= i < s.len() + t.len() && (s + t)[i] == x;
            if i < s.len() {
                assert(s[i] == x);
            } else {
                assert(t[i - s.len()] == x);
            }
        }
    }
}

/// Whether role link `rl` makes player `k` link to `j` among `actors`: `j` is another player
/// holding the linked role.
pub open spec fn role_link_holds(actors: Map<ID, Actor>, k: ID, rl: RoleActorLink, j: ID) -> bool {
    j != k && actor_is_player(actors, j) && actors[j].actor_type->Player_0.role == rl.role
}

proof fn lemma_role_links_from(actors: Map<ID, Actor>, k: ID, rl: RoleActorLink, n: nat)
    ensures
        forall|x: ActorLink| #[trigger] role_links_from(actors, k, rl, n).contains(x) <==> x.link_type == rl.link_type
            && (x.link_dest as int) < n && role_link_holds(actors, k, rl, x.link_dest),
    decreases n,
{
    if n > 0 {
        lemma_role_links_from(actors, k, rl, (n - 1) as nat);
        let prev = role_links_from(actors, k, rl, (n - 1) as nat);
        let j = (n - 1) as ID;
        lemma_push_contains_any(prev, ActorLink { link_type: rl.link_type, link_dest: j });
    }
}

proof fn lemma_wanted_links(actors: Map<ID, Actor>, k: ID, rls: Seq<RoleActorLink>, n: nat)
    ensures
        forall|x: ActorLink| #[trigger] wanted_links(actors, k, rls, n).contains(x) <==> exists|rl: RoleActorLink|
            #[trigger] rls.contains(rl) && role_links_from(actors, k, rl, n).contains(x),
    decreases rls.len(),
{
    if rls.len() > 0 {
        let prev = rls.drop_last();
        lemma_wanted_links(actors, k, prev, n);
        lemma_concat_contains(wanted_links(actors, k, prev, n), role_links_from(actors, k, rls.last(), n));
        assert(rls[rls.len() - 1] == rls.last());
        assert forall|x: ActorLink| #[trigger] wanted_links(actors, k, rls, n).contains(x) <==> exists|rl: RoleActorLink|
            #[trigger] rls.contains(rl) && role_links_from(actors, k, rl, n).contains(x) by {
            if wanted_links(actors, k, prev, n).contains(x) {
                let rl = choose|rl: RoleActorLink| #[trigger] prev.contains(rl) && role_links_from(actors, k, rl, n).contains(x);
                let i = choose|i: int| 0 <= i < prev.len() && prev[i] == rl;
                assert(rls[i] == rl);
                assert(rls.contains(rl));
            }
            if role_links_from(actors, k, rls.last(), n).contains(x) {
                assert(rls.contains(rls.last()));
            }
            if exists|rl: RoleActorLink| #[trigger] rls.contains(rl) && role_links_from(actors, k, rl, n).contains(x) {
                let rl = choose|rl: RoleActorLink| #[trigger] rls.contains(rl) && role_links_from(actors, k, rl, n).contains(x);
                let i = choose|i: int| 0 <= i < rls.len() && rls[i] == rl;
                if i < rls.len() - 1 {
                    assert(prev[i] == rl);
                    assert(prev.contains(rl));
                }
            }
        }
    }
}

proof fn lemma_links_added(l: Seq<ActorLink>, w: Seq<ActorLink>)
    ensures
        forall|x: ActorLink| #[trigger] links_added(l, w).contains(x) <==> l.contains(x) || w.contains(x),
    decreases w.len(),
{
    if w.len() > 0 {
        lemma_links_added(l, w.drop_last());
        lemma_push_contains_any(links_added(l, w.drop_last()), w.last());
        assert(w.drop_last().push(w.last()) =~= w);
        lemma_push_contains_any(w.drop_last(), w.last());
    }
}

/// Making the actor links gives every player, for each role link of its role, a link of
/// that type to every other player (whatever its key) that holds the linked role; a player
/// keeps the links it had and gets no others; other actors keep their links.
pub proof fn law_role_links_reach_every_holder(
    c: CreateActorLinks,
    e0: Engine,
    e1: Engine,
    c0: Seq<CommandPacket>,
    c1: Seq<CommandPacket>,
    actor: ActionActor,
    r: ActionResult,
)
    requires
        c.effect(e0, e1, c0, c1, actor, true, r),
        r is Ok,
    ensures
        forall|k: ID, rl: RoleActorLink, j: ID|
            #![trigger e1.world.actors@[k].links@.contains(ActorLink { link_type: rl.link_type, link_dest: j })]
            e0.world.is_player(k) && e0.config.role_spec(e0.world.player(k).role)->0.actor_links@.contains(rl)
                && role_link_holds(e0.world.actors@, k, rl, j)
            ==> e1.world.actors@[k].links@.contains(ActorLink { link_type: rl.link_type, link_dest: j }),
        forall|k: ID, x: ActorLink| e0.world.is_player(k) && #[trigger] e1.world.actors@[k].links@.contains(x)
            && !e0.world.actors@[k].links@.contains(x) ==> exists|rl: RoleActorLink|
                #[trigger] e0.config.role_spec(e0.world.player(k).role)->0.actor_links@.contains(rl)
                && rl.link_type == x.link_type && role_link_holds(e0.world.actors@, k, rl, x.link_dest),
        forall|k: ID, x: ActorLink| e0.world.actors@.contains_key(k) && #[trigger] e0.world.actors@[k].links@.contains(x)
            ==> e1.world.actors@[k].links@.contains(x),
        forall|k: ID| #[trigger] e0.world.actors@.contains_key(k) && !e0.world.is_player(k)
            ==> e1.world.actors@[k].links@ == e0.world.actors@[k].links@,
{
    let a0 = e0.world.actors@;
    let a1 = e1.world.actors@;
    let n = e0.world.actors.next_key() as nat;
    assert forall|k: ID, rl: RoleActorLink, j: ID|
        #![trigger e1.world.actors@[k].links@.contains(ActorLink { link_type: rl.link_type, link_dest: j })]
        e0.world.is_player(k) && e0.config.role_spec(e0.world.player(k).role)->0.actor_links@.contains(rl)
            && role_link_holds(e0.world.actors@, k, rl, j)
        implies e1.world.actors@[k].links@.contains(ActorLink { link_type: rl.link_type, link_dest: j }) by {
        let rls = e0.config.role_spec(e0.world.player(k).role)->0.actor_links@;
        assert(a1.contains_key(k));
        e0.world.actors.lemma_keys_below_next(j);
        lemma_role_links_from(a0, k, rl, n);
        lemma_wanted_links(a0, k, rls, n);
        lemma_links_added(a0[k].links@, crate::action::create_actor_links::links_of(e0, k));
        assert(role_links_from(a0, k, rl, n).contains(ActorLink { link_type: rl.link_type, link_dest: j }));
    }
    assert forall|k: ID, x: ActorLink| e0.world.is_player(k) && #[trigger] e1.world.actors@[k].links@.contains(x)
        && !e0.world.actors@[k].links@.contains(x) implies exists|rl: RoleActorLink|
            #[trigger] e0.config.role_spec(e0.world.player(k).role)->0.actor_links@.contains(rl)
            && rl.link_type == x.link_type && role_link_holds(e0.world.actors@, k, rl, x.link_dest) by {
        let rls = e0.config.role_spec(e0.world.player(k).role)->0.actor_links@;
        assert(a1.contains_key(k));
        lemma_wanted_links(a0, k, rls, n);
        lemma_links_added(a0[k].links@, crate::action::create_actor_links::links_of(e0, k));
        let rl = choose|rl: RoleActorLink| #[trigger] rls.contains(rl) && role_links_from(a0, k, rl, n).contains(x);
        lemma_role_links_from(a0, k, rl, n);
    }
    assert forall|k: ID, x: ActorLink| e0.world.actors@.contains_key(k) && #[trigger] e0.world.actors@[k].links@.contains(x)
        implies e1.world.actors@[k].links@.contains(x) by {
        assert(a1.contains_key(k));
        if e0.world.is_player(k) {
            lemma_links_added(a0[k].links@, crate::action::create_actor_links::links_of(e0, k));
        }
    }
    assert forall|k: ID| #[trigger] e0.world.actors@.contains_key(k) && !e0.world.is_player(k)
        implies e1.world.actors@[k].links@ == e0.world.actors@[k].links@ by {
        assert(a1.contains_key(k));
    }
}

/// The players a lounge of variant `v` is between: the creator of a fake lounge; the
/// contactor and the contacted player of a basic one.
pub open spec fn lounge_sides(v: LoungeVariant, q: ID) -> bool {
    match v {
        LoungeVariant::Fake { creator_id, .. } => q == creator_id,
        LoungeVariant::Basic { contacted_id, contactor_id } => q == contacted_id || q == contactor_id,
    }
}

/// A new lounge is stored under the next lounge key with its new channel, and each player
/// it is between joins that channel, able to send and view exactly when it can be
/// contacted, and lists the lounge among its lounges; no other actor changes.
pub proof fn law_lounge_joins_its_players(
    cl: CreateLounge,
    e0: Engine,
    e1: Engine,
    c0: Seq<CommandPacket>,
    c1: Seq<CommandPacket>,
    actor: ActionActor,
    r: ActionResult,
)
    requires
        cl.effect(e0, e1, c0, c1, actor, true, r),
        r == cl.answer(e0, e1, actor, true),
        r is Ok,
    ensures
        ({
            let c = e0.world.channels.next_key() as ID;
            let lid = e0.world.lounges.next_key() as ID;
            let ch = e1.world.channels@[c];
            &&& e1.world.lounges@.contains_key(lid)
            &&& e1.world.lounges@[lid] == (Lounge { channel_id: c, variant: cl.variant })
            &&& forall|q: ID| #[trigger] lounge_sides(cl.variant, q) ==> {
                let can = !e0.world.actors@[q].has_modifier_spec(Modifier::NoContact);
                &&& ch.member(q) is Some
                &&& ch.member(q)->0.perms.send == can
                &&& ch.member(q)->0.perms.view == can
                &&& e1.world.is_player(q)
                &&& e1.world.player(q).lounges@.contains(lid)
            }
            &&& forall|q: ID| #[trigger] e0.world.actors@.contains_key(q) && !lounge_sides(cl.variant, q)
                ==> e1.world.actors@[q] == e0.world.actors@[q]
        }),
{
    let lid = e0.world.lounges.next_key() as ID;
    let ps = crate::action::comms::lounge::create_lounge::participants(cl.variant);
    let a0 = e0.world.actors@;
    let a1 = e1.world.actors@;
    assert forall|q: ID| #[trigger] lounge_sides(cl.variant, q) implies ps.contains(q) by {
        match cl.variant {
            LoungeVariant::Fake { .. } => {
                assert(ps[0] == q);
            },
            LoungeVariant::Basic { contacted_id, .. } => {
                if q == contacted_id {
                    assert(ps[1] == q);
                } else {
                    assert(ps[0] == q);
                }
            },
        }
    }
    assert forall|q: ID| ps.contains(q) implies #[trigger] lounge_sides(cl.variant, q) by {
        let i = choose|i: int| 0 <= i < ps.len() && ps[i] == q;
    }
    assert forall|q: ID| #[trigger] lounge_sides(cl.variant, q) implies e1.world.is_player(q)
        && e1.world.player(q).lounges@.contains(lid) by {
        assert(ps.contains(q));
        assert(e0.world.is_player(q)) by {
            if ps[0] != q {
                assert(ps.len() > 1 && ps[1] == q);
            }
        }
        assert(a1.contains_key(q));
        let ch = e1.world.channels@[e0.world.channels.next_key() as ID];
        assert(ch.member(q) is Some);
        let l0 = a0[q].actor_type->Player_0.lounges@;
        if a1.contains_key(q) {
            lemma_push_contains_any(l0, lid);
        } else {
            assert(a0.contains_key(q) == a1.contains_key(q));
        }
    }
}

/// Giving an ability makes the new actor its owner and puts it on that actor's list; the
/// previous owner, if another actor, no longer lists it.
pub proof fn law_gift_moves_ability(g: GiveAbility, e0: Engine, e1: Engine)
    requires
        ability_given(e0, e1, g.ability_id, g.actor_id, g.volatile),
    ensures
        e1.world.abilities@[g.ability_id].ownership_struct.owner == Some(g.actor_id),
        e1.world.actors@[g.actor_id].abilities@.contains(g.ability_id),
        forall|o: ID| e0.world.abilities@[g.ability_id].ownership_struct.owner == Some(o) && o != g.actor_id
            ==> !(#[trigger] e1.world.actors@[o]).abilities@.contains(g.ability_id),
{
    let l0 = e0.world.actors@[g.actor_id].abilities@;
    lemma_push_contains_any(l0, g.ability_id);
    if let Some(o) = e0.world.abilities@[g.ability_id].ownership_struct.owner {
        if o != g.actor_id {
            crate::idset::lemma_without_contains(e0.world.actors@[o].abilities@, g.ability_id);
        }
    }
}

} // verus!
