use vstd::prelude::*;

use crate::ability::{link_dests, lemma_link_dests_contains, links_not_to, Ability, AbilityPoolLink};
use crate::action::chargepool::try_delete_charge_pool::TryDeleteChargePool;
use crate::action::{CommandPacket, ActionActor, ActionContext, ActionError, ActionResponse, ActionResult};
use crate::chargepool::ChargePool;
use crate::common::{ID, Version};
use crate::engine::{Engine, Touched};
use crate::helpers::{get_ability, get_charge_pool};

verus! {

#[derive(PartialEq, Eq, Structural, Clone, Debug)]
pub struct RemoveLinkResponse {}

/// System action: remove an ability's links to a pool.  The pool records one link fewer,
/// and is deleted when no link is left.
#[derive(PartialEq, Eq, Structural, Clone, Debug)]
pub struct RemoveLink {
    pub ability_id: ID,
    pub pool_id: ID,
}

/// The pools after one link to pool `d` is dropped: its link count goes down by one, and
/// it is deleted when no link is left.
pub open spec fn unlinked_pools(pools: Map<ID, ChargePool>, d: ID) -> Map<ID, ChargePool> {
    let p = pools[d];
    if p.ref_count <= 1 {
        pools.remove(d)
    } else {
        pools.insert(d, ChargePool { ref_count: (p.ref_count - 1) as u64, ..p })
    }
}

/// The pools after dropping one link to each pool of `dests` in turn; `None` if one of
/// them does not exist (any more) when its turn comes.
pub open spec fn unlink_all(pools: Map<ID, ChargePool>, dests: Seq<ID>) -> Option<Map<ID, ChargePool>>
    decreases dests.len(),
{
    if dests.len() == 0 {
        Some(pools)
    } else {
        match unlink_all(pools, dests.drop_last()) {
            Some(p) => if p.contains_key(dests.last()) {
                Some(unlinked_pools(p, dests.last()))
            } else {
                None
            },
            None => None,
        }
    }
}

/// A list of links without every link to a pool of `dests`.
pub open spec fn strip_links(ls: Seq<AbilityPoolLink>, dests: Seq<ID>) -> Seq<AbilityPoolLink>
    decreases dests.len(),
{
    if dests.len() == 0 {
        ls
    } else {
        strip_links(ls, dests.drop_last()).filter(links_not_to(dests.last()))
    }
}

pub proof fn lemma_strip_links_contains(ls: Seq<AbilityPoolLink>, dests: Seq<ID>, l: AbilityPoolLink)
    requires
        strip_links(ls, dests).contains(l),
    ensures
        ls.contains(l),
        !dests.contains(l.link.link_dest),
    decreases dests.len(),
{
    if dests.len() > 0 {
        let prev = strip_links(ls, dests.drop_last());
        prev.lemma_filter_contains_rev(links_not_to(dests.last()), l);
        lemma_strip_links_contains(ls, dests.drop_last(), l);
        if dests.contains(l.link.link_dest) {
            let k = choose|k: int| 0 <= k < dests.len() && dests[k] == l.link.link_dest;
            if k < dests.len() - 1 {
                assert(dests.drop_last()[k] == dests[k]);
            }
        }
    }
}

/// Stripping the links to every pool some link of a list points at (of every volatile
/// link, when `only_volatile`) leaves no such link.
pub proof fn lemma_strip_own_dests(ls: Seq<AbilityPoolLink>, only_volatile: bool)
    ensures
        forall|l: AbilityPoolLink| #[trigger] strip_links(ls, link_dests(ls, only_volatile)).contains(l)
            ==> ls.contains(l) && (only_volatile && !l.volatile),
{
    assert forall|l: AbilityPoolLink| #[trigger] strip_links(ls, link_dests(ls, only_volatile)).contains(l)
        implies ls.contains(l) && (only_volatile && !l.volatile) by {
        lemma_strip_links_contains(ls, link_dests(ls, only_volatile), l);
        let i = choose|i: int| 0 <= i < ls.len() && ls[i] == l;
        if !only_volatile || l.volatile {
            lemma_link_dests_contains(ls, only_volatile, i);
        }
    }
}

/// Whether every pool of `dests` exists.
pub open spec fn all_pools_exist(pools: Map<ID, ChargePool>, dests: Seq<ID>) -> bool {
    forall|i: int| 0 <= i < dests.len() ==> pools.contains_key(#[trigger] dests[i])
}

/// `new` is `old` with only the links of ability `aid` changed, to `links`.
pub open spec fn relinked(old: Map<ID, Ability>, new: Map<ID, Ability>, aid: ID, links: Seq<AbilityPoolLink>) -> bool {
    &&& old.contains_key(aid)
    &&& new == old.insert(aid, new[aid])
    &&& new[aid].ownership_struct == old[aid].ownership_struct
    &&& new[aid].ability_name == old[aid].ability_name
    &&& new[aid].variant == old[aid].variant
    &&& new[aid].links() == links
}

pub proof fn lemma_relinked_trans(a: Map<ID, Ability>, b: Map<ID, Ability>, c: Map<ID, Ability>, aid: ID, lb: Seq<AbilityPoolLink>, lc: Seq<AbilityPoolLink>)
    requires
        relinked(a, b, aid, lb),
        relinked(b, c, aid, lc),
    ensures
        relinked(a, c, aid, lc),
{
    assert(c =~= a.insert(aid, c[aid]));
}

pub proof fn lemma_relinked_refl(a: Map<ID, Ability>, aid: ID)
    requires
        a.contains_key(aid),
    ensures
        relinked(a, a, aid, a[aid].links()),
{
    assert(a =~= a.insert(aid, a[aid]));
}

impl RemoveLink {
    /// What the handler does besides answering: its effect on the engine (from `e0` to
    /// `e1`) and on the commands (from `c0` to `c1`), given its answer `r`.
    pub open spec fn effect(
        &self,
        e0: Engine,
        e1: Engine,
        c0: Seq<CommandPacket>,
        c1: Seq<CommandPacket>,
        actor: ActionActor,
        mutate: bool,
        r: ActionResult,
    ) -> bool {
        &&& (e1.wf())
        &&& (c1 =~= c0)
        &&& (e1.world.abilities.next_key() == e0.world.abilities.next_key())
        &&& (r is Err || !mutate ==> e1.unchanged(e0))
        &&& (r is Ok && mutate ==> {
            &&& e1.world.charge_pools@ =~= unlinked_pools(e0.world.charge_pools@, self.pool_id)
            &&& relinked(
                e0.world.abilities@,
                e1.world.abilities@,
                self.ability_id,
                e0.world.abilities@[self.ability_id].links().filter(links_not_to(self.pool_id)),
            )
            &&& e1.only_touches(e0, Touched { abilities: true, charge_pools: true, ..Touched::nothing() })
        })
    }

    /// The answer to a request from `actor`, from the engine before (`e0`) and after (`e1`)
    /// the handler runs.
    pub open spec fn answer(&self, e0: Engine, e1: Engine, actor: ActionActor, mutate: bool) -> ActionResult {
        if !(actor is System) {
            Err::<ActionResponse, ActionError>(ActionError::RequiresSystem)
        } else if !e0.world.charge_pools@.contains_key(self.pool_id) {
            Err(ActionError::ChargePoolNotFound)
        } else if !e0.world.abilities@.contains_key(self.ability_id) {
            Err(ActionError::AbilityNotFound)
        } else {
            Ok(ActionResponse::RemoveLink(RemoveLinkResponse {}))
        }
    }

    pub fn handle(
        &mut self,
        eng: &mut Engine,
        ctx: &mut ActionContext,
        actor: &ActionActor,
        version: Version,
        mutate: bool,
    ) -> (r: ActionResult)
        requires
            old(eng).wf(),
        ensures
            final(eng).wf(),
            *final(self) == *old(self),
            final(ctx).commands@ == old(ctx).commands@,
            final(eng).world.abilities.next_key() == old(eng).world.abilities.next_key(),
            r == old(self).answer(*old(eng), *final(eng), *actor, mutate),
            r is Err || !mutate ==> final(eng).unchanged(*old(eng)),
            r is Ok && mutate ==> {
                &&& final(eng).world.charge_pools@ == unlinked_pools(old(eng).world.charge_pools@, old(self).pool_id)
                &&& relinked(
                    old(eng).world.abilities@,
                    final(eng).world.abilities@,
                    old(self).ability_id,
                    old(eng).world.abilities@[old(self).ability_id].links().filter(links_not_to(old(self).pool_id)),
                )
                &&& final(eng).only_touches(*old(eng), Touched { abilities: true, charge_pools: true, ..Touched::nothing() })
            },
            old(self).effect(*old(eng), *final(eng), old(ctx).commands@, final(ctx).commands@, *actor, mutate, r),
    {
        actor.require_system()?;
        let _ = get_charge_pool(eng, self.pool_id)?;
        let _ = get_ability(eng, self.ability_id)?;

        if mutate {
            let mut ability: Ability = eng.world.abilities.take(self.ability_id).unwrap();
            ability.remove_link(self.pool_id);
            eng.world.abilities.put(self.ability_id, ability);
            proof {
                assert(eng.world.abilities@ =~= old(eng).world.abilities@.insert(self.ability_id, eng.world.abilities@[self.ability_id]));
            }

            let mut pool: ChargePool = *get_charge_pool(eng, self.pool_id)?;
            let unlinked: bool = pool.on_unlink();
            eng.world.charge_pools.put(self.pool_id, pool);
            if unlinked {
                let ghost mid = eng.world.charge_pools@;
                (TryDeleteChargePool { id: self.pool_id }).handle(eng, ctx, actor, version, mutate)?;
                assert(eng.world.charge_pools@ =~= unlinked_pools(old(eng).world.charge_pools@, self.pool_id));
            } else {
                assert(eng.world.charge_pools@ =~= unlinked_pools(old(eng).world.charge_pools@, self.pool_id));
            }
        }

        Ok(ActionResponse::RemoveLink(RemoveLinkResponse {}))
    }
}

/// Removes the links of ability `ability_id` to each pool of `dests` in turn, as
/// `RemoveLink` would one by one; stops at the first refusal.
pub fn remove_links_to(
    eng: &mut Engine,
    ctx: &mut ActionContext,
    actor: &ActionActor,
    version: Version,
    mutate: bool,
    ability_id: ID,
    dests: &Vec<ID>,
) -> (r: Result<(), ActionError>)
    requires
        old(eng).wf(),
        *actor is System,
        old(eng).world.abilities@.contains_key(ability_id),
    ensures
        final(eng).wf(),
        final(ctx).commands@ == old(ctx).commands@,
        final(eng).only_touches(*old(eng), Touched { abilities: true, charge_pools: true, ..Touched::nothing() }),
        final(eng).world.abilities@.contains_key(ability_id),
        final(eng).world.abilities@.dom() == old(eng).world.abilities@.dom(),
        final(eng).world.abilities.next_key() == old(eng).world.abilities.next_key(),
        !mutate ==> final(eng).unchanged(*old(eng)),
        !mutate ==> (r is Ok <==> all_pools_exist(old(eng).world.charge_pools@, dests@)),
        mutate ==> (r is Ok <==> unlink_all(old(eng).world.charge_pools@, dests@) is Some),
        r is Err ==> r == Err::<(), ActionError>(ActionError::ChargePoolNotFound),
        mutate && r is Ok ==> {
            &&& final(eng).world.charge_pools@ == unlink_all(old(eng).world.charge_pools@, dests@)->0
            &&& relinked(
                old(eng).world.abilities@,
                final(eng).world.abilities@,
                ability_id,
                strip_links(old(eng).world.abilities@[ability_id].links(), dests@),
            )
        },
{
    let n: usize = dests.len();
    let mut i: usize = 0;
    proof {
        lemma_relinked_refl(old(eng).world.abilities@, ability_id);
        assert(dests@.take(0) =~= Seq::<ID>::empty());
    }
    while i < n
        invariant
            n == dests@.len(),
            i <= n,
            eng.wf(),
            *actor is System,
            ctx.commands@ == old(ctx).commands@,
            eng.only_touches(*old(eng), Touched { abilities: true, charge_pools: true, ..Touched::nothing() }),
            eng.world.abilities@.contains_key(ability_id),
            eng.world.abilities@.dom() == old(eng).world.abilities@.dom(),
            eng.world.abilities.next_key() == old(eng).world.abilities.next_key(),
            !mutate ==> eng.unchanged(*old(eng)),
            !mutate ==> all_pools_exist(old(eng).world.charge_pools@, dests@.take(i as int)),
            mutate ==> unlink_all(old(eng).world.charge_pools@, dests@.take(i as int)) == Some(eng.world.charge_pools@),
            mutate ==> relinked(
                old(eng).world.abilities@,
                eng.world.abilities@,
                ability_id,
                strip_links(old(eng).world.abilities@[ability_id].links(), dests@.take(i as int)),
            ),
        decreases n - i,
    {
        let d: ID = dests[i];
        let ghost before = *eng;
        proof {
            assert(dests@.take(i as int + 1).drop_last() =~= dests@.take(i as int));
            assert(dests@.take(i as int + 1).last() == d);
        }
        let res = (RemoveLink { ability_id, pool_id: d }).handle(eng, ctx, actor, version, mutate);
        proof {
            if res is Ok && mutate {
                assert(eng.world.abilities@.dom() =~= before.world.abilities@.dom());
            }
        }
        match res {
            Ok(_) => {},
            Err(e) => {
                proof {
                    if !mutate {
                        assert(!all_pools_exist(old(eng).world.charge_pools@, dests@)) by {
                            assert(dests@[i as int] == d);
                        }
                    } else {
                        assert(unlink_all(old(eng).world.charge_pools@, dests@.take(i as int + 1)) is None);
                        lemma_unlink_all_none_extends(old(eng).world.charge_pools@, dests@, i as int + 1);
                    }
                }
                return Err(e);
            },
        }
        proof {
            if mutate {
                lemma_relinked_trans(
                    old(eng).world.abilities@,
                    before.world.abilities@,
                    eng.world.abilities@,
                    ability_id,
                    strip_links(old(eng).world.abilities@[ability_id].links(), dests@.take(i as int)),
                    strip_links(old(eng).world.abilities@[ability_id].links(), dests@.take(i as int + 1)),
                );
            } else {
                assert forall|j: int| 0 <= j < i + 1 implies old(eng).world.charge_pools@.contains_key(#[trigger] dests@.take(i as int + 1)[j]) by {
                    if j < i {
                        assert(dests@.take(i as int + 1)[j] == dests@.take(i as int)[j]);
                    }
                }
            }
        }
        i = i + 1;
    }
    proof {
        assert(dests@.take(n as int) =~= dests@);
    }
    Ok(())
}

/// Once a prefix of `dests` cannot be unlinked, neither can any longer prefix.
/// Dropping one link to each of `dests` in turn succeeds only where each of them existed
/// at the start; pools only go away.
pub proof fn lemma_unlink_all_some_exist(pools: Map<ID, ChargePool>, dests: Seq<ID>)
    requires
        unlink_all(pools, dests) is Some,
    ensures
        all_pools_exist(pools, dests),
        forall|k: ID| #[trigger] unlink_all(pools, dests)->0.contains_key(k) ==> pools.contains_key(k),
    decreases dests.len(),
{
    if dests.len() > 0 {
        lemma_unlink_all_some_exist(pools, dests.drop_last());
        assert forall|i: int| 0 <= i < dests.len() implies pools.contains_key(#[trigger] dests[i]) by {
            if i < dests.len() - 1 {
                assert(dests.drop_last()[i] == dests[i]);
            } else {
                assert(unlink_all(pools, dests.drop_last())->0.contains_key(dests.last()));
            }
        }
    }
}

pub proof fn lemma_unlink_all_none_extends(pools: Map<ID, ChargePool>, dests: Seq<ID>, k: int)
    requires
        0 <= k <= dests.len(),
        unlink_all(pools, dests.take(k)) is None,
    ensures
        unlink_all(pools, dests) is None,
    decreases dests.len() - k,
{
    if k < dests.len() {
        assert(dests.take(k + 1).drop_last() =~= dests.take(k));
        lemma_unlink_all_none_extends(pools, dests, k + 1);
    } else {
        assert(dests.take(k) =~= dests);
    }
}

} // verus!
