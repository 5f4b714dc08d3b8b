use vstd::prelude::*;

use crate::action::actor::add_state::state_added;
use crate::action::actor::org::add_to_org::AddToOrg;
use crate::action::actor::org::remove_from_org::{org_link, RemoveFromOrg};
use crate::action::actor::player::kill::{kill_effect, killed, loot_moves, loots};
use crate::action::actor::remove_state::state_removed;
use crate::ability::{usage_count, usage_limit, uses_at, AbilityPoolLink};
use crate::action::ability::use_ability::{charge_links, charge_verdict, ChargePass, UseAbility};
use crate::action::{ActionActor, ActionError};
use crate::chargepool::ChargePool;
use crate::actor::{Actor, Modifier, State};
use crate::common::ID;
use crate::action::actor::org::change_org_leader::ChangeOrgLeader;
use crate::action::actor::org::system_use_org_ability::{is_present, org_settings_hold, present_count, SystemUseOrgAbility};
use crate::engine::{Engine, World};
use crate::action::actor::purge_volatiles::{purged_ability, purged_notebook, purged_passive};
use crate::action::give_role::GiveRole;

verus! {

/// Filtering a sequence by a predicate that all its items meet leaves it as it is.
pub proof fn lemma_filter_keeps_all<A>(s: Seq<A>, pred: spec_fn(A) -> bool)
    requires
        forall|i: int| 0 <= i < s.len() ==> pred(#[trigger] s[i]),
    ensures
        s.filter(pred) == s,
    decreases s.len(),
{
    if s.len() > 0 {
        let rest = s.drop_last();
        assert forall|i: int| 0 <= i < rest.len() implies pred(#[trigger] rest[i]) by {
            assert(rest[i] == s[i]);
        }
        lemma_filter_keeps_all(rest, pred);
        rest.lemma_filter_push(s.last(), pred);
        assert(rest.push(s.last()) =~= s);
    } else {
        reveal(Seq::filter);
        assert(s.filter(pred) =~= s);
    }
}

/// Death does not end a membership: killing a player leaves every organization as it was,
/// its members, leader and abilities included.
pub proof fn law_death_keeps_memberships(target: ID, e0: Engine, e1: Engine, org: ID)
    requires
        kill_effect(target, e0, e1),
    ensures
        e1.world.is_org(org) == e0.world.is_org(org),
        e0.world.is_org(org) ==> e1.world.org(org) == e0.world.org(org),
{
    let a0 = e0.world.actors@;
    let a1 = e1.world.actors@;
    assert(a1.dom() =~= a0.dom());
    if org == target {
        assert(a1[org].actor_type == a0[org].actor_type);
    }
}

/// Joining an organization and then leaving it gives the organization back its members
/// (and its leadership, when the player did not join as leader), gives the player back its
/// links if it had no passive link to the organization before, and leaves every other
/// actor as it was.
pub proof fn law_join_then_leave(join: AddToOrg, e0: Engine, e1: Engine, e2: Engine)
    requires
        join.refusal(e0, ActionActor::System) is None,
        join.joined(e0, e1),
        (RemoveFromOrg { actor_id: join.player_id, org_id: join.org_id }).left(e1, e2),
    ensures
        e2.world.is_org(join.org_id),
        e2.world.org(join.org_id).members@ == e0.world.org(join.org_id).members@,
        !join.leader ==> e2.world.org(join.org_id).leadership_struct == e0.world.org(join.org_id).leadership_struct,
        !e0.world.actors@[join.player_id].links@.contains(org_link(join.org_id))
            ==> e2.world.actors@[join.player_id].links@ == e0.world.actors@[join.player_id].links@,
        e2.world.actors@.dom() == e0.world.actors@.dom(),
        forall|k: ID|
            k != join.player_id && k != join.org_id && #[trigger] e0.world.actors@.contains_key(k)
                ==> e2.world.actors@[k] == e0.world.actors@[k],
{
    let p = join.player_id;
    let o = join.org_id;
    let ms = e0.world.org(o).members@;
    assert(!ms.contains(p));
    assert forall|i: int| 0 <= i < ms.len() implies (crate::idset::other_than(p))(#[trigger] ms[i]) by {
        assert(ms.contains(ms[i]));
    }
    lemma_filter_keeps_all(ms, crate::idset::other_than(p));
    ms.lemma_filter_push(p, crate::idset::other_than(p));
    let ls = e0.world.actors@[p].links@;
    if !ls.contains(org_link(o)) {
        assert forall|i: int| 0 <= i < ls.len() implies (crate::actor::link_is_not(org_link(o)))(#[trigger] ls[i]) by {
            assert(ls.contains(ls[i]));
        }
        lemma_filter_keeps_all(ls, crate::actor::link_is_not(org_link(o)));
        ls.lemma_filter_push(org_link(o), crate::actor::link_is_not(org_link(o)));
    }
}

/// Members have their organization's passives in effect: once a player has joined, every
/// type of passive that the organization holds is in effect for the player.
pub proof fn law_members_have_org_passives(join: AddToOrg, e0: Engine, e1: Engine, t: crate::passive::PassiveType)
    requires
        join.refusal(e0, ActionActor::System) is None,
        join.joined(e0, e1),
        e1.world.passives@ == e0.world.passives@,
        crate::helpers::holds_passive(e0.world, join.org_id, t),
    ensures
        crate::helpers::has_effective_passive(e1.world, join.player_id, t),
{
    let p = join.player_id;
    let o = join.org_id;
    let a0 = e0.world.actors@;
    let a1 = e1.world.actors@;
    assert(a1[o].passives == a0[o].passives);
    let i = choose|i: int| 0 <= i < a0[o].passives@.len()
        && e0.world.passives@.contains_key(#[trigger] a0[o].passives@[i])
        && e0.world.passives@[a0[o].passives@[i]].passive_type == t;
    assert(crate::helpers::holds_passive(e1.world, o, t)) by {
        assert(e1.world.passives@.contains_key(a1[o].passives@[i]));
    }
    let ls = a1[p].links@;
    if !a0[p].links@.contains(org_link(o)) {
        assert(ls[ls.len() - 1] == org_link(o));
    }
    assert(ls.contains(org_link(o)));
    let j = choose|j: int| 0 <= j < ls.len() && ls[j] == org_link(o);
    assert((#[trigger] a1[p].links@[j]).link_type == crate::actor::ActorLinkType::Passive
        && crate::helpers::holds_passive(e1.world, a1[p].links@[j].link_dest, t));
}

/// Putting an actor into a state it was not in and then taking it out of that state gives
/// it back its states, and with them its modifiers; no other actor changes.
pub proof fn law_state_round_trip(
    a0: Map<ID, Actor>,
    a1: Map<ID, Actor>,
    a2: Map<ID, Actor>,
    id: ID,
    s: State,
    mods: Seq<Modifier>,
)
    requires
        !a0[id].has_state_spec(s),
        state_added(a0, a1, id, s, mods),
        state_removed(a1, a2, id, s),
    ensures
        a2.dom() == a0.dom(),
        a2[id].states@ == a0[id].states@,
        a2[id] == (Actor { states: a2[id].states, ..a0[id] }),
        forall|m: Modifier| a2[id].has_modifier_spec(m) == a0[id].has_modifier_spec(m),
        forall|k: ID| k != id && #[trigger] a0.contains_key(k) ==> a2[k] == a0[k],
{
    let st = a0[id].states@;
    let pred = crate::actor::state_is_not(s);
    assert forall|i: int| 0 <= i < st.len() implies pred(#[trigger] st[i]) by {
        if st[i].state == s {
            assert(a0[id].has_state_spec(s));
        }
    }
    lemma_filter_keeps_all(st, pred);
    st.lemma_filter_push(a1[id].states@.last(), pred);
    assert(a1[id].states@ == st.push(a1[id].states@.last()));
    assert(a2.dom() =~= a0.dom());
}

/// A count of uses is zero exactly when the pool holds less than a use costs.
proof fn lemma_uses_zero(charges: u32, weight: u32)
    ensures
        (uses_at(charges, weight) == Some(0u32)) == (charges < weight),
{
    if weight > 0 {
        assert(0 <= charges / weight <= charges) by (nonlinear_arith)
            requires
                weight > 0,
        ;
        assert((charges / weight == 0) == (charges < weight)) by (nonlinear_arith)
            requires
                weight > 0,
        ;
    }
}

/// The count of uses over a list of links and the charge check over the same links, made
/// without taking charges, agree link by link.
proof fn lemma_count_matches_check(ls: Seq<AbilityPoolLink>, pools: Map<ID, ChargePool>)
    ensures
        charge_links(pools, ls, false).pools == pools,
        ({
            let s = charge_links(pools, ls, false);
            match usage_count(ls, pools) {
                None => s.err is Some,
                Some(c) => {
                    &&& (s.err is Some) == (c.limit == Some(0u32))
                    &&& s.err is Some ==> s.err == Some(ActionError::AbilityNotEnoughCharges)
                    &&& s.err is None ==> s.has_pool_link == c.has_pool
                    &&& s.err is None ==> s.payable_pool == (c.has_pool && c.pool != Some(0u32))
                },
            }
        }),
    decreases ls.len(),
{
    if ls.len() > 0 {
        let rest = ls.drop_last();
        lemma_count_matches_check(rest, pools);
        let l = ls.last();
        let d = l.link.link_dest;
        if pools.contains_key(d) {
            lemma_uses_zero(pools[d].charges, l.link.weight);
        }
    }
}

/// The usage limit decides the charge check of a use: checked without taking charges (as
/// a dry run checks it), a use whose linked pools all exist is refused for lack of charges
/// exactly when the ability's usage limit is zero, and passes the check otherwise; a use
/// with a missing pool is refused.
pub proof fn law_usage_limit_decides_charge_check(use_: UseAbility, e: Engine)
    ensures
        match usage_limit(e.world.abilities@[use_.ability_id].links(), e.world.charge_pools@) {
            None => charge_verdict(use_.charges(e, false)) is Some,
            Some(n) => charge_verdict(use_.charges(e, false)) == if n == Some(0u32) {
                Some(ActionError::AbilityNotEnoughCharges)
            } else {
                None::<ActionError>
            },
        },
{
    lemma_count_matches_check(e.world.abilities@[use_.ability_id].links(), e.world.charge_pools@);
}

/// Whether no two players of the world share a true name.
pub open spec fn names_unique(w: World) -> bool {
    forall|a: ID, b: ID|
        #[trigger] w.is_player(a) && #[trigger] w.is_player(b) && a != b ==> w.player(a).true_name@ != w.player(b).true_name@
}

/// True names stay unique: adding a player under a name no player has, as the world's
/// `add_player` does, keeps the true names of the players unique.
pub proof fn law_new_player_keeps_names_unique(w0: World, w1: World, name: Seq<char>, role: crate::config::Role, id: ID)
    requires
        names_unique(w0),
        !w0.name_taken(name),
        !w0.actors@.contains_key(id),
        w1.actors@ == w0.actors@.insert(id, w1.actors@[id]),
        w1.actors@[id].is_new_player(name, role),
    ensures
        names_unique(w1),
{
    assert forall|a: ID, b: ID| #[trigger] w1.is_player(a) && #[trigger] w1.is_player(b) && a != b implies w1.player(a).true_name@
        != w1.player(b).true_name@ by {
        if a != id {
            assert(w0.is_player(a));
        }
        if b != id {
            assert(w0.is_player(b));
        }
    }
}

/// Death does not decide membership: killing a player changes neither whether it can join
/// or leave an organization nor whether it can be made its leader.
pub proof fn law_death_does_not_decide_membership(
    target: ID,
    e0: Engine,
    e1: Engine,
    org: ID,
    leader: bool,
    actor: ActionActor,
)
    requires
        kill_effect(target, e0, e1),
    ensures
        (AddToOrg { org_id: org, player_id: target, leader }).refusal(e1, actor)
            == (AddToOrg { org_id: org, player_id: target, leader }).refusal(e0, actor),
        (RemoveFromOrg { actor_id: target, org_id: org }).refusal(e1, actor)
            == (RemoveFromOrg { actor_id: target, org_id: org }).refusal(e0, actor),
        (ChangeOrgLeader { org_id: org, leader: Some(target) }).refusal(e1, actor)
            == (ChangeOrgLeader { org_id: org, leader: Some(target) }).refusal(e0, actor),
{
    let a0 = e0.world.actors@;
    let a1 = e1.world.actors@;
    assert(a1.dom() =~= a0.dom());
    assert(a1[target].actor_type == a0[target].actor_type);
    law_death_keeps_memberships(target, e0, e1, org);
}

/// No present member counts when none of the members is present.
proof fn lemma_none_present(actors: Map<ID, Actor>, ms: Seq<ID>)
    requires
        forall|i: int| 0 <= i < ms.len() ==> !is_present(actors, #[trigger] ms[i]),
    ensures
        present_count(actors, ms) == 0,
    decreases ms.len(),
{
    if ms.len() > 0 {
        let rest = ms.drop_last();
        assert forall|i: int| 0 <= i < rest.len() implies !is_present(actors, #[trigger] rest[i]) by {
            assert(rest[i] == ms[i]);
        }
        lemma_none_present(actors, rest);
        assert(!is_present(actors, ms[ms.len() - 1]));
    }
}

/// An organization none of whose members is present cannot act: a use of one of its
/// abilities that needs at least one member is refused for want of members, whoever asks
/// and whether or not a vote is skipped.
pub proof fn law_absent_org_cannot_act(u: SystemUseOrgAbility, e0: Engine, e1: Engine, mutate: bool)
    requires
        e0.world.is_org(u.org_id),
        org_settings_hold(e0, u.org_id, u.ability_id),
        e0.world.org(u.org_id).ability_settings(u.ability_id)->0.require_members > 0,
        forall|i: int|
            0 <= i < e0.world.org(u.org_id).members@.len() ==> !is_present(
                e0.world.actors@,
                #[trigger] e0.world.org(u.org_id).members@[i],
            ),
    ensures
        u.outcome(e0, e1, mutate) == Err::<Option<ID>, ActionError>(ActionError::NotEnoughMembers),
{
    lemma_none_present(e0.world.actors@, e0.world.org(u.org_id).members@);
}

/// The links go to pools that are all different.
pub open spec fn distinct_dests(ls: Seq<AbilityPoolLink>) -> bool {
    forall|i: int, j: int| 0 <= i < j < ls.len() ==> ls[i].link.link_dest != ls[j].link.link_dest
}

/// A count of uses less one (no limit stays no limit).
pub open spec fn one_less(u: Option<u32>) -> Option<u32> {
    match u {
        Some(x) => Some(if x > 0 { (x - 1) as u32 } else { 0u32 }),
        None => None,
    }
}

/// The pool a link of a use leaves behind: its weight taken when it holds enough.
pub open spec fn paid(p: ChargePool, weight: u32) -> ChargePool {
    if p.charges >= weight {
        ChargePool { charges: (p.charges - weight) as u32, ..p }
    } else {
        p
    }
}

/// Paying a link leaves a count of uses one less.
proof fn lemma_paid_uses(p: ChargePool, weight: u32)
    ensures
        uses_at(paid(p, weight).charges, weight) == one_less(uses_at(p.charges, weight)),
        p.charges >= weight ==> uses_at(p.charges, weight) != Some(0u32),
{
    lemma_uses_zero(p.charges, weight);
    if weight > 0 {
        assert(0 <= p.charges / weight <= p.charges) by (nonlinear_arith)
            requires
                weight > 0,
        ;
        if p.charges >= weight {
            vstd::arithmetic::div_mod::lemma_div_minus_one(p.charges as int, weight as int);
            assert(0 <= (p.charges - weight) / (weight as int) <= p.charges - weight) by (nonlinear_arith)
                requires
                    weight > 0,
                    p.charges >= weight,
            ;
        }
    }
}

/// With links to different pools, a use that meets no error pays each link from the pool
/// as it was, and looks at every pool as the check without payment does.
proof fn lemma_paying_pass(pools: Map<ID, ChargePool>, ls: Seq<AbilityPoolLink>)
    requires
        distinct_dests(ls),
        charge_links(pools, ls, true).err is None,
    ensures
        ({
            let s = charge_links(pools, ls, true);
            let d = charge_links(pools, ls, false);
            &&& s.pools.dom() == pools.dom()
            &&& forall|i: int| 0 <= i < ls.len() ==> pools.contains_key(#[trigger] ls[i].link.link_dest)
                && s.pools[ls[i].link.link_dest] == paid(pools[ls[i].link.link_dest], ls[i].link.weight)
            &&& forall|k: ID| (forall|i: int| 0 <= i < ls.len() ==> #[trigger] ls[i].link.link_dest != k)
                ==> s.pools[k] == pools[k]
            &&& d.err is None
            &&& s.has_pool_link == d.has_pool_link
            &&& s.payable_pool == d.payable_pool
        }),
    decreases ls.len(),
{
    if ls.len() > 0 {
        let rest = ls.drop_last();
        let l = ls.last();
        let n = ls.len() - 1;
        assert(distinct_dests(rest)) by {
            assert forall|i: int, j: int| 0 <= i < j < rest.len() implies rest[i].link.link_dest != rest[j].link.link_dest by {
                assert(rest[i] == ls[i] && rest[j] == ls[j]);
            }
        }
        if charge_links(pools, rest, true).err is Some {
            assert(charge_links(pools, ls, true).err is Some);
        }
        lemma_paying_pass(pools, rest);
        lemma_count_matches_check(rest, pools);
        let s0 = charge_links(pools, rest, true);
        assert forall|i: int| 0 <= i < rest.len() implies #[trigger] rest[i].link.link_dest != l.link.link_dest by {
            assert(rest[i] == ls[i]);
            assert(ls[n] == l);
        }
        assert(s0.pools[l.link.link_dest] == pools[l.link.link_dest]);
        assert forall|i: int| 0 <= i < ls.len() implies pools.contains_key(#[trigger] ls[i].link.link_dest)
            && charge_links(pools, ls, true).pools[ls[i].link.link_dest] == paid(pools[ls[i].link.link_dest], ls[i].link.weight) by {
            if i < n {
                assert(rest[i] == ls[i]);
                assert(ls[i].link.link_dest != l.link.link_dest);
            }
        }
        assert(charge_links(pools, ls, true).pools.dom() =~= pools.dom());
    } else {
        assert(charge_links(pools, ls, true).pools.dom() =~= pools.dom());
    }
}

/// Counting the uses over pools that paid each link of a use gives one use less per link.
proof fn lemma_count_after_paying(ls: Seq<AbilityPoolLink>, pools: Map<ID, ChargePool>, q: Map<ID, ChargePool>)
    requires
        forall|i: int| 0 <= i < ls.len() ==> pools.contains_key(#[trigger] ls[i].link.link_dest)
            && q.contains_key(ls[i].link.link_dest)
            && q[ls[i].link.link_dest].charges == paid(pools[ls[i].link.link_dest], ls[i].link.weight).charges,
        forall|i: int| 0 <= i < ls.len() && (#[trigger] ls[i]).link.link_type is Limit
            ==> pools[ls[i].link.link_dest].charges >= ls[i].link.weight,
    ensures
        usage_count(ls, pools) is Some,
        usage_count(ls, q) is Some,
        usage_count(ls, pools)->0.limit != Some(0u32),
        usage_count(ls, q)->0.limit == one_less(usage_count(ls, pools)->0.limit),
        usage_count(ls, q)->0.has_pool == usage_count(ls, pools)->0.has_pool,
        usage_count(ls, q)->0.pool == one_less(usage_count(ls, pools)->0.pool),
    decreases ls.len(),
{
    if ls.len() > 0 {
        let rest = ls.drop_last();
        let n = ls.len() - 1;
        assert forall|i: int| 0 <= i < rest.len() implies pools.contains_key(#[trigger] rest[i].link.link_dest)
            && q.contains_key(rest[i].link.link_dest)
            && q[rest[i].link.link_dest].charges == paid(pools[rest[i].link.link_dest], rest[i].link.weight).charges by {
            assert(rest[i] == ls[i]);
        }
        assert forall|i: int| 0 <= i < rest.len() && (#[trigger] rest[i]).link.link_type is Limit
            implies pools[rest[i].link.link_dest].charges >= rest[i].link.weight by {
            assert(rest[i] == ls[i]);
        }
        lemma_count_after_paying(rest, pools, q);
        let l = ls[n];
        let p = pools[l.link.link_dest];
        lemma_paid_uses(p, l.link.weight);
        assert(q[l.link.link_dest].charges == paid(p, l.link.weight).charges);
    }
}

/// Every use costs one use: when an ability's links go to different pools, a use that
/// passes its charge check leaves the ability's usage limit one less than it was (and no
/// limit where there was none); its usage limit was not zero before.
pub proof fn law_use_costs_one_use(use_: UseAbility, e: Engine)
    requires
        distinct_dests(e.world.abilities@[use_.ability_id].links()),
        charge_verdict(use_.charges(e, true)) is None,
    ensures
        ({
            let ls = e.world.abilities@[use_.ability_id].links();
            let before = usage_limit(ls, e.world.charge_pools@);
            &&& before is Some
            &&& before != Some(Some(0u32))
            &&& usage_limit(ls, use_.charges(e, true).pools) == Some(one_less(before->0))
        }),
{
    let ls = e.world.abilities@[use_.ability_id].links();
    let pools = e.world.charge_pools@;
    lemma_paying_pass(pools, ls);
    let q = charge_links(pools, ls, true).pools;
    assert forall|i: int| 0 <= i < ls.len() && (#[trigger] ls[i]).link.link_type is Limit
        implies pools[ls[i].link.link_dest].charges >= ls[i].link.weight by {
        let k = i + 1;
        assert(ls.take(k).drop_last() =~= ls.take(i));
        assert(ls.take(k).last() == ls[i]);
        if charge_links(pools, ls.take(k), true).err is Some {
            crate::action::ability::use_ability::lemma_charge_err_extends(pools, ls, k, true);
        }
        if charge_links(pools, ls.take(i), true).err is Some {
            crate::action::ability::use_ability::lemma_charge_err_extends(pools, ls, i, true);
        }
        lemma_paying_pass(pools, ls.take(i));
        assert forall|j: int| 0 <= j < i implies #[trigger] ls.take(i)[j].link.link_dest != ls[i].link.link_dest by {
            assert(ls.take(i)[j] == ls[j]);
        }
    }
    lemma_count_after_paying(ls, pools, q);
    lemma_count_matches_check(ls, pools);
}

/// The ids from `lo` on, `n` of them.
pub open spec fn id_range(lo: int, n: nat) -> Set<ID> {
    Set::new(|k: ID| lo <= k < lo + n)
}

pub proof fn lemma_id_range_len(lo: int, n: nat)
    requires
        0 <= lo,
        lo + n <= u64::MAX + 1,
    ensures
        id_range(lo, n).finite(),
        id_range(lo, n).len() == n,
    decreases n,
{
    if n == 0 {
        assert(id_range(lo, n) =~= Set::<ID>::empty());
    } else {
        lemma_id_range_len(lo, (n - 1) as nat);
        assert(id_range(lo, n) =~= id_range(lo, (n - 1) as nat).insert((lo + n - 1) as ID));
    }
}

/// The volatile abilities that actor `a` lists.
pub open spec fn volatile_abilities(e: Engine, a: ID) -> Set<ID> {
    Set::new(|k: ID| purged_ability(e, a, k))
}

/// The volatile passives that actor `a` lists.
pub open spec fn volatile_passives(e: Engine, a: ID) -> Set<ID> {
    Set::new(|k: ID| purged_passive(e, a, k))
}

/// The volatile notebooks that actor `a` lists.
pub open spec fn volatile_notebooks(e: Engine, a: ID) -> Set<ID> {
    Set::new(|k: ID| purged_notebook(e, a, k))
}

/// Giving a player a role resets its role state rather than adding to it: after a gift
/// the player holds exactly one volatile ability, passive and notebook per entry of the
/// role's config, so a second gift of the same role leaves it with as many as the first.
pub proof fn law_give_role_resets(g: GiveRole, e0: Engine, e1: Engine, e2: Engine)
    requires
        g.given(e0, e1),
        g.given(e1, e2),
    ensures
        e1.world.player(g.target_id).role == g.role,
        e2.world.player(g.target_id).role == g.role,
        volatile_abilities(e1, g.target_id).len() == g.role_config(e0).abilities@.len(),
        volatile_passives(e1, g.target_id).len() == g.role_config(e0).passives@.len(),
        volatile_notebooks(e1, g.target_id).len() == g.role_config(e0).notebooks@.len(),
        volatile_abilities(e2, g.target_id).len() == volatile_abilities(e1, g.target_id).len(),
        volatile_passives(e2, g.target_id).len() == volatile_passives(e1, g.target_id).len(),
        volatile_notebooks(e2, g.target_id).len() == volatile_notebooks(e1, g.target_id).len(),
{
    let t = g.target_id;
    let rc = g.role_config(e0);
    assert(g.role_config(e1) == rc);
    e1.world.abilities.lemma_next_key_bounded();
    e1.world.passives.lemma_next_key_bounded();
    e1.world.notebooks.lemma_next_key_bounded();
    e2.world.abilities.lemma_next_key_bounded();
    e2.world.passives.lemma_next_key_bounded();
    e2.world.notebooks.lemma_next_key_bounded();
    e0.world.abilities.lemma_next_key_bounded();
    e0.world.passives.lemma_next_key_bounded();
    e0.world.notebooks.lemma_next_key_bounded();
    assert(volatile_abilities(e1, t) =~= id_range(e0.world.abilities.next_key(), rc.abilities@.len()));
    assert(volatile_passives(e1, t) =~= id_range(e0.world.passives.next_key(), rc.passives@.len()));
    assert(volatile_notebooks(e1, t) =~= id_range(e0.world.notebooks.next_key(), rc.notebooks@.len()));
    assert(volatile_abilities(e2, t) =~= id_range(e1.world.abilities.next_key(), rc.abilities@.len()));
    assert(volatile_passives(e2, t) =~= id_range(e1.world.passives.next_key(), rc.passives@.len()));
    assert(volatile_notebooks(e2, t) =~= id_range(e1.world.notebooks.next_key(), rc.notebooks@.len()));
    lemma_id_range_len(e0.world.abilities.next_key(), rc.abilities@.len());
    lemma_id_range_len(e0.world.passives.next_key(), rc.passives@.len());
    lemma_id_range_len(e0.world.notebooks.next_key(), rc.notebooks@.len());
    lemma_id_range_len(e1.world.abilities.next_key(), rc.abilities@.len());
    lemma_id_range_len(e1.world.passives.next_key(), rc.passives@.len());
    lemma_id_range_len(e1.world.notebooks.next_key(), rc.notebooks@.len());
}

/// Over links to distinct pools, the charging pass and the checking pass meet the same
/// errors and the same pool verdicts; the checking pass leaves the pools as they were, and
/// the charging pass leaves alone every pool that no link reaches.
pub proof fn lemma_charge_passes_agree(pools: Map<ID, ChargePool>, ls: Seq<AbilityPoolLink>)
    requires
        distinct_dests(ls),
    ensures
        charge_links(pools, ls, true).err == charge_links(pools, ls, false).err,
        charge_links(pools, ls, true).payable_pool == charge_links(pools, ls, false).payable_pool,
        charge_links(pools, ls, true).has_pool_link == charge_links(pools, ls, false).has_pool_link,
        charge_links(pools, ls, false).pools == pools,
        charge_links(pools, ls, true).pools.dom() == pools.dom(),
        forall|k: ID| #[trigger] pools.contains_key(k) && (forall|i: int| 0 <= i < ls.len() ==> ls[i].link.link_dest != k)
            ==> charge_links(pools, ls, true).pools[k] == pools[k],
    decreases ls.len(),
{
    if ls.len() > 0 {
        let rest = ls.drop_last();
        assert forall|i: int, j: int| 0 <= i < j < rest.len() implies rest[i].link.link_dest != rest[j].link.link_dest by {
            assert(rest[i] == ls[i] && rest[j] == ls[j]);
        }
        lemma_charge_passes_agree(pools, rest);
        let m: ChargePass = charge_links(pools, rest, true);
        let d = ls.last().link.link_dest;
        assert forall|i: int| 0 <= i < rest.len() implies rest[i].link.link_dest != d by {
            assert(rest[i] == ls[i]);
            assert(ls[i].link.link_dest != ls[ls.len() - 1].link.link_dest);
        }
        if pools.contains_key(d) {
            assert(m.pools[d] == pools[d]);
        }
        assert forall|k: ID| #[trigger] pools.contains_key(k) && (forall|i: int| 0 <= i < ls.len() ==> ls[i].link.link_dest != k)
            implies charge_links(pools, ls, true).pools[k] == pools[k] by {
            assert(ls[ls.len() - 1].link.link_dest != k);
            assert forall|i: int| 0 <= i < rest.len() implies rest[i].link.link_dest != k by {
                assert(rest[i] == ls[i]);
            }
        }
        assert(charge_links(pools, ls, true).pools.dom() =~= pools.dom());
    }
}

/// A check of a use of an ability whose links go to distinct pools refuses it exactly when
/// carrying it out would, with the same error.
pub proof fn law_use_check_agrees_with_use(use_: UseAbility, e: Engine, actor: ActionActor)
    requires
        distinct_dests(e.world.abilities@[use_.ability_id].links()),
    ensures
        use_.refusal(e, actor, false) == use_.refusal(e, actor, true),
{
    lemma_charge_passes_agree(e.world.charge_pools@, e.world.abilities@[use_.ability_id].links());
}

/// A kill by another player hands the killer every transferrable ability that the victim
/// owned and listed: its owner is the killer, and it moves from the victim's list to the
/// killer's.  Other abilities stay where they were.
pub proof fn law_kill_hands_over_transferrables(target: ID, killer: ID, e0: Engine, e1: Engine, a: ID)
    requires
        killed(target, Some(killer), e0, e1),
        loots(e0, target, Some(killer)),
        e0.world.abilities@.contains_key(a),
    ensures
        loot_moves(e0.world, target, a) ==> {
            &&& e1.world.abilities@[a].ownership_struct.owner == Some(killer)
            &&& e1.world.actors@[killer].abilities@.contains(a)
            &&& !e1.world.actors@[target].abilities@.contains(a)
        },
        !loot_moves(e0.world, target, a) ==> e1.world.abilities@[a] == e0.world.abilities@[a],
{
    let mid = choose|mid: Engine| {
        &&& crate::action::actor::player::kill::looted_to(e0, mid, target, killer)
        &&& #[trigger] kill_effect(target, mid, e1)
        &&& crate::engine::same_store(mid.world.abilities, e1.world.abilities)
    };
    assert(e1.world.actors@[killer] == mid.world.actors@[killer]);
    assert(e1.world.actors@[target].abilities == mid.world.actors@[target].abilities);
}

} // verus!
