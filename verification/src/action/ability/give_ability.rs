use vstd::prelude::*;

use crate::ability::{add_volatile_links, kind_of, link_dests, Ability};
use crate::action::ability::clear_volatile_links::ClearVolatileLinks;
use crate::action::ability::remove_link::{all_pools_exist, lemma_unlink_all_some_exist, strip_links, unlink_all};
use crate::action::{CommandPacket, ActionActor, ActionContext, ActionError, ActionResponse, ActionResult};
use crate::actor::Actor;
use crate::chargepool::{ChargePool, PoolLink};
use crate::common::{ID, Version};
use crate::config::{AbilityIdentifier, ConfigPoolLink, ConfigPoolLinkDetails};
use crate::engine::{ability_list_set, lemma_same_actor_types, same_actor_types, same_store, Engine, Touched};
use crate::helpers::{get_ability, get_actor, get_charge_pool, get_config_of};
use crate::idset::without;
use crate::ownership::OwnershipStruct;

verus! {

#[derive(PartialEq, Eq, Structural, Clone, Debug)]
pub struct GiveAbilityResponse {}

/// System action: transfer an ability to an actor.  The ability leaves its previous
/// owner, loses its volatile links, and gets (as volatile links) the links its config
/// names to the new owner's pools.
#[derive(PartialEq, Eq, Structural, Clone, Debug)]
pub struct GiveAbility {
    pub ability_id: ID,
    pub actor_id: ID,
    pub volatile: bool,
}

/// The pool links that the config links `cl` give an ability owned by `owner`.
pub open spec fn config_pool_links(cl: Seq<ConfigPoolLink>, owner: Actor) -> Seq<PoolLink> {
    cl.map_values(|l: ConfigPoolLink| PoolLink {
        link_type: l.link_type,
        link_dest: match l.details {
            ConfigPoolLinkDetails::Actor(n) => owner.pool_spec(n)->0,
        },
        weight: l.weight,
    })
}

/// Whether `owner` has every pool that the config links `cl` name.
pub open spec fn has_config_pools(cl: Seq<ConfigPoolLink>, owner: Actor) -> bool {
    forall|i: int| 0 <= i < cl.len() ==> match (#[trigger] cl[i]).details {
        ConfigPoolLinkDetails::Actor(n) => owner.pool_spec(n) is Some,
    }
}

/// The pools after one more link to pool `d` (the link count saturates).
pub open spec fn linked_pools(pools: Map<ID, ChargePool>, d: ID) -> Map<ID, ChargePool> {
    let p = pools[d];
    pools.insert(d, ChargePool { ref_count: if p.ref_count == u64::MAX { u64::MAX } else { (p.ref_count + 1) as u64 }, ..p })
}

/// The pools after one more link to the pool of each link of `nl` in turn; `None` if one
/// of them does not exist.
pub open spec fn link_all(pools: Map<ID, ChargePool>, nl: Seq<PoolLink>) -> Option<Map<ID, ChargePool>>
    decreases nl.len(),
{
    if nl.len() == 0 {
        Some(pools)
    } else {
        match link_all(pools, nl.drop_last()) {
            Some(p) => if p.contains_key(nl.last().link_dest) {
                Some(linked_pools(p, nl.last().link_dest))
            } else {
                None
            },
            None => None,
        }
    }
}

/// Whether `nl` can be linked depends on which pools exist only, and linking keeps them.
pub proof fn lemma_link_all_dom(p1: Map<ID, ChargePool>, p2: Map<ID, ChargePool>, nl: Seq<PoolLink>)
    requires
        p1.dom() == p2.dom(),
    ensures
        (link_all(p1, nl) is None) == (link_all(p2, nl) is None),
        link_all(p1, nl) matches Some(q) ==> q.dom() == p1.dom(),
    decreases nl.len(),
{
    if nl.len() > 0 {
        lemma_link_all_dom(p1, p2, nl.drop_last());
        lemma_link_all_dom(p2, p1, nl.drop_last());
        if link_all(p1, nl.drop_last()) is Some {
            let q = link_all(p1, nl.drop_last())->0;
            if q.contains_key(nl.last().link_dest) {
                assert(linked_pools(q, nl.last().link_dest).dom() =~= q.dom());
            }
        }
    }
}

/// Links to pools that all exist can be made.
pub proof fn lemma_link_all_some(pools: Map<ID, ChargePool>, nl: Seq<PoolLink>)
    requires
        forall|i: int| 0 <= i < nl.len() ==> pools.contains_key(#[trigger] nl[i].link_dest),
    ensures
        link_all(pools, nl) is Some,
    decreases nl.len(),
{
    if nl.len() > 0 {
        let pre = nl.drop_last();
        assert forall|i: int| 0 <= i < pre.len() implies pools.contains_key(#[trigger] pre[i].link_dest) by {
            assert(pre[i] == nl[i]);
        }
        lemma_link_all_some(pools, pre);
        lemma_link_all_dom(pools, pools, pre);
        assert(nl[nl.len() - 1] == nl.last());
    }
}

/// Once a prefix of `nl` cannot be linked, neither can any longer prefix.
pub proof fn lemma_link_all_none_extends(pools: Map<ID, ChargePool>, nl: Seq<PoolLink>, k: int)
    requires
        0 <= k <= nl.len(),
        link_all(pools, nl.take(k)) is None,
    ensures
        link_all(pools, nl) is None,
    decreases nl.len() - k,
{
    if k < nl.len() {
        assert(nl.take(k + 1).drop_last() =~= nl.take(k));
        lemma_link_all_none_extends(pools, nl, k + 1);
    } else {
        assert(nl.take(k) =~= nl);
    }
}

/// The mutation of a transfer: the ability gets its new owner and (as volatile links) the
/// links `links`, each linked pool records one more link, and the new owner lists the
/// ability.  Stops at the first pool that does not exist, with the ability already changed.
#[verifier::loop_isolation(false)]
fn commit_transfer(eng: &mut Engine, aid: ID, act: ID, volatile: bool, links: &Vec<PoolLink>) -> (r: Result<(), ActionError>)
    requires
        old(eng).wf(),
        old(eng).world.abilities@.contains_key(aid),
        old(eng).world.actors@.contains_key(act),
    ensures
        final(eng).wf(),
        final(eng).only_touches(*old(eng), Touched { actors: true, abilities: true, charge_pools: true, ..Touched::nothing() }),
        r is Ok <==> link_all(old(eng).world.charge_pools@, links@) is Some,
        r is Err ==> r == Err::<(), ActionError>(ActionError::ChargePoolNotFound),
        final(eng).world.abilities.next_key() == old(eng).world.abilities.next_key(),
        final(eng).world.actors.next_key() == old(eng).world.actors.next_key(),
        r is Ok ==> {
            let a0 = old(eng).world.abilities@[aid];
            let a1 = final(eng).world.abilities@[aid];
            let l0 = old(eng).world.actors@[act].abilities@;
            let l1 = if l0.contains(aid) { l0 } else { l0.push(aid) };
            &&& final(eng).world.charge_pools@ == link_all(old(eng).world.charge_pools@, links@)->0
            &&& final(eng).world.abilities@ == old(eng).world.abilities@.insert(aid, a1)
            &&& a1.ownership_struct == (OwnershipStruct {
                owner: Some(act),
                transferrable: a0.ownership_struct.transferrable,
                volatile,
            })
            &&& a1.ability_name == a0.ability_name
            &&& a1.variant == a0.variant
            &&& a1.links() == add_volatile_links(a0.links(), links@)
            &&& ability_list_set(old(eng).world.actors@, final(eng).world.actors@, act, l1)
        },
{
    let ghost e0 = *eng;
    let mut ability: Ability = eng.world.abilities.take(aid).unwrap();
    ability.ownership_struct.set_owner(act, volatile);
    let m: usize = links.len();
    let mut j: usize = 0;
    while j < m
        invariant
            m == links@.len(),
            j <= m,
            ability.links() == add_volatile_links(e0.world.abilities@[aid].links(), links@.take(j as int)),
            ability.ownership_struct == (OwnershipStruct {
                owner: Some(act),
                transferrable: e0.world.abilities@[aid].ownership_struct.transferrable,
                volatile,
            }),
            ability.ability_name == e0.world.abilities@[aid].ability_name,
            ability.variant == e0.world.abilities@[aid].variant,
        decreases m - j,
    {
        let link: PoolLink = links[j];
        assert(links@.take(j as int + 1).drop_last() =~= links@.take(j as int));
        ability.add_link(link.link_dest, link.link_type, link.weight, true);
        j = j + 1;
    }
    assert(links@.take(m as int) =~= links@);
    eng.world.abilities.put(aid, ability);
    let ghost a1 = eng.world.abilities@[aid];
    assert(eng.world.abilities@ =~= e0.world.abilities@.insert(aid, a1));

    let mut j: usize = 0;
    assert(links@.take(0) =~= Seq::<PoolLink>::empty());
    while j < m
        invariant
            m == links@.len(),
            j <= m,
            link_all(e0.world.charge_pools@, links@.take(j as int)) == Some(eng.world.charge_pools@),
            eng.world.abilities@ == e0.world.abilities@.insert(aid, a1),
            eng.world.abilities.next_key() == e0.world.abilities.next_key(),
            eng.world.actors == e0.world.actors,
            eng.wf(),
            eng.only_touches(e0, Touched { abilities: true, charge_pools: true, ..Touched::nothing() }),
        decreases m - j,
    {
        let link: PoolLink = links[j];
        assert(links@.take(j as int + 1).drop_last() =~= links@.take(j as int));
        let got = get_charge_pool(eng, link.link_dest);
        if got.is_err() {
            proof {
                lemma_link_all_none_extends(e0.world.charge_pools@, links@, j as int + 1);
            }
        }
        let mut pool: ChargePool = *got?;
        pool.on_link();
        eng.world.charge_pools.put(link.link_dest, pool);
        assert(eng.world.charge_pools@ =~= linked_pools(link_all(e0.world.charge_pools@, links@.take(j as int))->0, link.link_dest));
        j = j + 1;
    }
    assert(links@.take(m as int) =~= links@);
    let ghost e3 = *eng;
    eng.world.actor_add_ability(act, aid);
    proof {
        lemma_same_actor_types(e3.world.actors@, eng.world.actors@);
    }
    Ok(())
}

/// What a transfer of ability `aid_` to actor `act_` does, from the engine before (`e0`) to
/// the engine after (`e1`): the ability leaves its previous owner, loses its volatile
/// links and the pools they pointed at lose a link; it gets the links its config names to
/// the new owner's pools, as volatile links, and those pools gain one; the new owner lists
/// the ability.
pub open spec fn ability_given(e0: Engine, e1: Engine, aid_: ID, act_: ID, volatile: bool) -> bool {
    let aid = aid_;
    let act = act_;
    let a0 = e0.world.abilities@[aid];
    let vd = link_dests(a0.links(), true);
    let nl = config_pool_links(
        e0.config.ability_spec(kind_of(a0))->0.default_links@,
        e0.world.actors@[act],
    );
    let a1 = e1.world.abilities@[aid];
    let actors0 = e0.world.actors@;
    let actors1 = e1.world.actors@;
    &&& e1.world.charge_pools@ == link_all(unlink_all(e0.world.charge_pools@, vd)->0, nl)->0
    &&& e1.world.abilities@ == e0.world.abilities@.insert(aid, a1)
    &&& e1.world.abilities.next_key() == e0.world.abilities.next_key()
    &&& e1.world.actors.next_key() == e0.world.actors.next_key()
    &&& a1.ownership_struct == (OwnershipStruct {
        owner: Some(act),
        transferrable: a0.ownership_struct.transferrable,
        volatile: volatile,
    })
    &&& a1.ability_name == a0.ability_name
    &&& a1.variant == a0.variant
    &&& a1.links() == add_volatile_links(strip_links(a0.links(), vd), nl)
    &&& same_actor_types(actors0, actors1)
    &&& actors1[act] == (Actor { abilities: actors1[act].abilities, ..actors0[act] })
    &&& actors1[act].abilities@ == if actors0[act].abilities@.contains(aid) {
        actors0[act].abilities@
    } else {
        actors0[act].abilities@.push(aid)
    }
    &&& a0.ownership_struct.owner matches Some(o) ==> {
        &&& actors1[o] == (Actor { abilities: actors1[o].abilities, ..actors0[o] })
        &&& actors1[o].abilities@ == without(actors0[o].abilities@, aid)
    }
    &&& forall|k: ID| k != act && Some(k) != a0.ownership_struct.owner && #[trigger] actors1.contains_key(k)
        ==> actors1[k] == actors0[k]
}

impl GiveAbility {
    /// Whether the new owner has the pools that the ability's config links name, where the
    /// gift gets as far as linking them (giving the ability is not defined otherwise).
    pub open spec fn pools_ready(&self, e: Engine) -> bool {
        e.world.abilities@.contains_key(self.ability_id) && e.world.actors@.contains_key(self.actor_id)
            && e.world.abilities@[self.ability_id].ownership_struct.owner != Some(self.actor_id)
            && all_pools_exist(e.world.charge_pools@, link_dests(e.world.abilities@[self.ability_id].links(), true)) ==> {
            match e.config.ability_spec(kind_of(e.world.abilities@[self.ability_id])) {
                Some(c) => has_config_pools(c.default_links@, e.world.actors@[self.actor_id]),
                None => true,
            }
        }
    }

    /// Why the action is refused on engine `e`, if it is.
    pub open spec fn refusal(&self, e: Engine, actor: ActionActor, mutate: bool) -> Option<ActionError> {
        if !(actor is System) {
            Some(ActionError::RequiresSystem)
        } else if !e.world.actors@.contains_key(self.actor_id) {
            Some(ActionError::ActorNotFound)
        } else if !e.world.abilities@.contains_key(self.ability_id) {
            Some(ActionError::AbilityNotFound)
        } else if e.world.abilities@[self.ability_id].ownership_struct.owner == Some(self.actor_id) {
            Some(ActionError::ItemAlreadyOwned)
        } else {
            let a = e.world.abilities@[self.ability_id];
            let vd = link_dests(a.links(), true);
            let pools = e.world.charge_pools@;
            if (if mutate { unlink_all(pools, vd) is None } else { !all_pools_exist(pools, vd) }) {
                Some(ActionError::ChargePoolNotFound)
            } else if e.config.ability_spec(kind_of(a)) is None {
                Some(ActionError::AbilityConfigNotFound)
            } else if mutate && link_all(
                unlink_all(pools, vd)->0,
                config_pool_links(e.config.ability_spec(kind_of(a))->0.default_links@, e.world.actors@[self.actor_id]),
            ) is None {
                Some(ActionError::ChargePoolNotFound)
            } else {
                None
            }
        }
    }

    /// What the handler does besides answering: its effect on the engine (from `e0` to
    /// `e1`) and on the commands (from `c0` to `c1`), given its answer `r`.
    pub open spec fn effect(
        &self,
        e0: Engine,
        e1: Engine,
        c0: Seq<CommandPacket>,
        c1: Seq<CommandPacket>,
        actor: ActionActor,
        mutate: bool,
        r: ActionResult,
    ) -> bool {
        &&& (e1.wf())
        &&& (c1 =~= c0)
        &&& (self.refusal(e0, actor, mutate) matches Some(err) && err != ActionError::ChargePoolNotFound
            && err != ActionError::AbilityConfigNotFound ==> e1.unchanged(e0))
        &&& (!mutate ==> e1.unchanged(e0))
        &&& (e1.only_touches(e0, Touched { actors: true, abilities: true, charge_pools: true, ..Touched::nothing() }))
        &&& (mutate && r is Ok ==> ability_given(e0, e1, self.ability_id, self.actor_id, self.volatile))
    }

    /// The answer to a request from `actor`, from the engine before (`e0`) and after (`e1`)
    /// the handler runs.
    pub open spec fn answer(&self, e0: Engine, e1: Engine, actor: ActionActor, mutate: bool) -> ActionResult {
        match self.refusal(e0, actor, mutate) {
            Some(e) => Err::<ActionResponse, ActionError>(e),
            None => Ok(ActionResponse::GiveAbility(GiveAbilityResponse {})),
        }
    }

    #[verifier::loop_isolation(false)]
    pub fn handle(
        &mut self,
        eng: &mut Engine,
        ctx: &mut ActionContext,
        actor: &ActionActor,
        version: Version,
        mutate: bool,
    ) -> (r: ActionResult)
        requires
            old(eng).wf(),
            old(self).pools_ready(*old(eng)),
        ensures
            final(eng).wf(),
            *final(self) == *old(self),
            final(ctx).commands@ == old(ctx).commands@,
            r == old(self).answer(*old(eng), *final(eng), *actor, mutate),
            old(self).refusal(*old(eng), *actor, mutate) matches Some(err) && err != ActionError::ChargePoolNotFound
                && err != ActionError::AbilityConfigNotFound ==> final(eng).unchanged(*old(eng)),
            !mutate ==> final(eng).unchanged(*old(eng)),
            final(eng).only_touches(*old(eng), Touched { actors: true, abilities: true, charge_pools: true, ..Touched::nothing() }),
            mutate && r is Ok ==> ability_given(*old(eng), *final(eng), old(self).ability_id, old(self).actor_id, old(self).volatile),
            old(self).effect(*old(eng), *final(eng), old(ctx).commands@, final(ctx).commands@, *actor, mutate, r),
    {
        let ghost e0 = *eng;
        actor.require_system()?;
        let _ = get_actor(eng, self.actor_id)?;

        let ability = get_ability(eng, self.ability_id)?;
        let name = ability.ability_name;
        let variant = ability.variant;
        let owner: Option<ID> = ability.ownership_struct.owner;
        if let Some(owner_id) = owner {
            if owner_id == self.actor_id {
                return Err(ActionError::ItemAlreadyOwned);
            }
            if mutate {
                eng.world.actor_remove_ability(owner_id, self.ability_id);
                proof {
                    lemma_same_actor_types(e0.world.actors@, eng.world.actors@);
                }
            }
        }
        let ghost e1 = *eng;
        assert(e1.world.abilities == e0.world.abilities);
        assert(e1.world.charge_pools == e0.world.charge_pools);

        (ClearVolatileLinks { ability_id: self.ability_id }).handle(eng, ctx, actor, version, mutate)?;
        let ghost e2 = *eng;
        proof {
            if mutate {
                lemma_unlink_all_some_exist(
                    e0.world.charge_pools@,
                    link_dests(e0.world.abilities@[self.ability_id].links(), true),
                );
            }
        }

        let config = get_config_of(eng, AbilityIdentifier { name, variant })?;

        let actor_data = get_actor(eng, self.actor_id)?;
        let ghost cl = config.default_links@;
        let ghost nl = config_pool_links(cl, e0.world.actors@[self.actor_id]);
        assert(actor_data == e0.world.actors@[self.actor_id]);
        let n: usize = config.default_links.len();
        let mut links_to_create: Vec<PoolLink> = Vec::new();
        let mut i: usize = 0;
        while i < n
            invariant
                n == cl.len(),
                *config == e0.config.ability_spec(kind_of(e0.world.abilities@[self.ability_id]))->0,
                cl == config.default_links@,
                nl == config_pool_links(cl, *actor_data),
                has_config_pools(cl, *actor_data),
                i <= n,
                links_to_create@ == nl.take(i as int),
            decreases n - i,
        {
            let link: ConfigPoolLink = config.default_links[i];
            assert(cl[i as int] == link);
            let dest: ID = match link.details {
                ConfigPoolLinkDetails::Actor(pool_name) => actor_data.pool(pool_name).unwrap(),
            };
            links_to_create.push(PoolLink { link_type: link.link_type, link_dest: dest, weight: link.weight });
            assert(links_to_create@ =~= nl.take(i as int + 1));
            i = i + 1;
        }
        assert(links_to_create@ =~= nl);

        let _ = get_ability(eng, self.ability_id)?;
        if mutate {
            commit_transfer(eng, self.ability_id, self.actor_id, self.volatile, &links_to_create)?;
            proof {
                let a0 = e0.world.abilities@[self.ability_id];
                let a1 = eng.world.abilities@[self.ability_id];
                let vd = link_dests(a0.links(), true);
                assert(eng.world.charge_pools@ == link_all(unlink_all(e0.world.charge_pools@, vd)->0, nl)->0);
                assert(eng.world.abilities@ == e0.world.abilities@.insert(self.ability_id, a1));
                assert(a1.links() == add_volatile_links(strip_links(a0.links(), vd), nl));
                assert(same_actor_types(e0.world.actors@, eng.world.actors@));
            }
        }

        Ok(ActionResponse::GiveAbility(GiveAbilityResponse {}))
    }
}

} // verus!
