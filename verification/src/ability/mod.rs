use vstd::prelude::*;

use indexmap::IndexSet;

use crate::ability::gun::{Gun, GunResponse};
use crate::ability::pseudocide::{Pseudocide, PseudocideResponse};
use crate::action::command::Command;
use crate::action::comms::bug::update_bug_visibilities::all_bug_cmds;
use crate::action::{ActionActor, ActionContext, ActionError, CommandPacket};
use crate::text::lowercase;
use crate::chargepool::{ChargePool, PoolLink, PoolLinkType};
use crate::engine::{Engine, Touched};
use crate::action::actor::player::kill::{killed, kill_result};
use crate::common::{ChargeCount, ID, LinkWeight, Variant};
use crate::config::{AbilityIdentifier, AbilityName};
use crate::indexset::{
    pool_link_entries, pool_links_extract_first_to, pool_links_get_index, pool_links_insert, pool_links_len,
    pool_links_new, pool_links_retain_not_to,
};
use crate::ownership::OwnershipStruct;

pub mod gun;
pub mod pseudocide;

verus! {

/// The behaviour of an ability kind: its name, and what using it does.
pub trait AbilityInterface: Sized {
    /// Whether the engine is in a state in which the behaviour can run.
    spec fn ready(&self, e: Engine) -> bool;

    spec fn name_spec(&self) -> AbilityName;

    fn ability_name(&self) -> (n: AbilityName)
        ensures
            n == self.name_spec(),
    ;

    /// Runs the behaviour for ability `ability` used by `actor`.
    fn handle(
        &mut self,
        eng: &mut Engine,
        ctx: &mut ActionContext,
        actor: &ActionActor,
        ability: ID,
        version: u8,
        mutate: bool,
    ) -> (r: AbilityResult)
        requires
            old(eng).wf(),
            old(self).ready(*old(eng)),
        ensures
            final(eng).wf(),
            *final(self) == *old(self),
    ;
}

/// What using an ability answers, per behaviour.
#[derive(PartialEq, PartialOrd, Eq, Ord, Debug, Clone)]
pub enum AbilityResponse {
    Pseudocide(PseudocideResponse),
    Gun(GunResponse),
}

pub type AbilityResult = Result<AbilityResponse, ActionError>;

/// The behaviours of the ability kinds, with their arguments.
#[derive(PartialEq, PartialOrd, Eq, Ord, Debug, Clone)]
pub enum AbilityBehaviour {
    Pseudocide(Pseudocide),
    Gun(Gun),
}

/// A link from an ability to a charge pool.  A volatile link is destroyed when the
/// ability is given to a new owner (`GiveAbility`).
#[derive(Hash, PartialEq, PartialOrd, Eq, Ord, Structural, Debug, Clone, Copy)]
pub struct AbilityPoolLink {
    pub volatile: bool,
    pub link: PoolLink,
}

/// Whether some link of a list points at `dest`.
pub open spec fn has_link_to(s: Seq<AbilityPoolLink>, dest: ID) -> bool {
    exists|i: int| 0 <= i < s.len() && #[trigger] s[i].link.link_dest == dest
}

/// The position of the first link of a list that points at `dest`.
pub open spec fn first_link_to(s: Seq<AbilityPoolLink>, dest: ID) -> int {
    choose|i: int|
        0 <= i < s.len() && s[i].link.link_dest == dest && forall|j: int|
            0 <= j < i ==> #[trigger] s[j].link.link_dest != dest
}

/// A list of links without its first link to `dest` (unchanged if it has none).
pub open spec fn without_first_link_to(s: Seq<AbilityPoolLink>, dest: ID) -> Seq<AbilityPoolLink> {
    if has_link_to(s, dest) {
        s.remove(first_link_to(s, dest))
    } else {
        s
    }
}

pub open spec fn links_not_to(dest: ID) -> spec_fn(AbilityPoolLink) -> bool {
    |l: AbilityPoolLink| l.link.link_dest != dest
}

pub fn link_has_dest(l: &AbilityPoolLink, dest: ID) -> (b: bool)
    ensures
        b == (l.link.link_dest == dest),
{
    l.link.link_dest == dest
}

pub fn link_kept_without(l: &AbilityPoolLink, dest: ID) -> (b: bool)
    ensures
        b == (l.link.link_dest != dest),
{
    l.link.link_dest != dest
}

/// An ability in the world.  If an ability has no pool links, then it has infinite usages.
#[derive(Debug)]
pub struct Ability {
    pub ownership_struct: OwnershipStruct,
    pub pool_links: IndexSet<AbilityPoolLink>,
    pub ability_name: AbilityName,
    pub variant: Variant,
}

/// The links of an ability after `add_link` of `new_link`: the first link to the same pool
/// is dropped, and the new link is appended unless an equal link is still there.
pub open spec fn links_after_add(s: Seq<AbilityPoolLink>, new_link: AbilityPoolLink) -> Seq<AbilityPoolLink> {
    let rest = without_first_link_to(s, new_link.link.link_dest);
    if rest.contains(new_link) {
        rest
    } else {
        rest.push(new_link)
    }
}

/// The pools that the links of a list point at, in order (only those of volatile links
/// when `only_volatile`).
pub open spec fn link_dests(ls: Seq<AbilityPoolLink>, only_volatile: bool) -> Seq<ID>
    decreases ls.len(),
{
    if ls.len() == 0 {
        Seq::<ID>::empty()
    } else {
        let rest = link_dests(ls.drop_last(), only_volatile);
        if !only_volatile || ls.last().volatile {
            rest.push(ls.last().link.link_dest)
        } else {
            rest
        }
    }
}

pub proof fn lemma_link_dests_contains(ls: Seq<AbilityPoolLink>, only_volatile: bool, i: int)
    requires
        0 <= i < ls.len(),
        !only_volatile || ls[i].volatile,
    ensures
        link_dests(ls, only_volatile).contains(ls[i].link.link_dest),
    decreases ls.len(),
{
    if i < ls.len() - 1 {
        assert(ls.drop_last()[i] == ls[i]);
        lemma_link_dests_contains(ls.drop_last(), only_volatile, i);
        let rest = link_dests(ls.drop_last(), only_volatile);
        let k = choose|k: int| 0 <= k < rest.len() && rest[k] == ls[i].link.link_dest;
        if !only_volatile || ls.last().volatile {
            assert(rest.push(ls.last().link.link_dest)[k] == rest[k]);
        }
    } else {
        let rest = link_dests(ls.drop_last(), only_volatile);
        assert(rest.push(ls.last().link.link_dest)[rest.len() as int] == ls[i].link.link_dest);
    }
}

/// The kind (name and variant) of an ability.
pub open spec fn kind_of(a: Ability) -> AbilityIdentifier {
    AbilityIdentifier { name: a.ability_name, variant: a.variant }
}

/// A list of links after `add_link` of each link of `nl` in turn, as volatile links.
pub open spec fn add_volatile_links(ls: Seq<AbilityPoolLink>, nl: Seq<PoolLink>) -> Seq<AbilityPoolLink>
    decreases nl.len(),
{
    if nl.len() == 0 {
        ls
    } else {
        links_after_add(add_volatile_links(ls, nl.drop_last()), AbilityPoolLink { volatile: true, link: nl.last() })
    }
}

impl Ability {
    /// The pools the ability's links point at, in order (only those of volatile links when
    /// `only_volatile`).
    pub fn link_dests(&self, only_volatile: bool) -> (r: Vec<ID>)
        ensures
            r@ == link_dests(self.links(), only_volatile),
    {
        let n: usize = pool_links_len(&self.pool_links);
        let mut out: Vec<ID> = Vec::new();
        let mut i: usize = 0;
        while i < n
            invariant
                n == self.links().len(),
                i <= n,
                out@ == link_dests(self.links().take(i as int), only_volatile),
            decreases n - i,
        {
            let l: AbilityPoolLink = pool_links_get_index(&self.pool_links, i).unwrap();
            assert(self.links().take(i as int + 1).drop_last() =~= self.links().take(i as int));
            assert(self.links().take(i as int + 1).last() == l);
            if !only_volatile || l.volatile {
                out.push(l.link.link_dest);
            }
            i = i + 1;
        }
        assert(self.links().take(n as int) =~= self.links());
        out
    }

    /// The pool links of the ability, in the order they were made.
    pub open spec fn links(&self) -> Seq<AbilityPoolLink> {
        pool_link_entries(self.pool_links)
    }

    pub fn new(ability_name: AbilityName, variant: Variant, transferrable: bool) -> (a: Self)
        ensures
            a.links() == Seq::<AbilityPoolLink>::empty(),
            a.variant == variant,
            a.ability_name == ability_name,
            a.ownership_struct == OwnershipStruct::new_spec(transferrable),
    {
        Ability {
            pool_links: pool_links_new(),
            variant,
            ability_name,
            ownership_struct: OwnershipStruct::new(transferrable),
        }
    }

    /// Links the ability to a pool, replacing the first link to the same pool; returns the
    /// link that was replaced.
    pub fn add_link(
        &mut self,
        link_dest: ID,
        link_type: PoolLinkType,
        weight: LinkWeight,
        volatile: bool,
    ) -> (removed: Option<AbilityPoolLink>)
        ensures
            final(self).ownership_struct == old(self).ownership_struct,
            final(self).ability_name == old(self).ability_name,
            final(self).variant == old(self).variant,
            removed == if has_link_to(old(self).links(), link_dest) {
                Some(old(self).links()[first_link_to(old(self).links(), link_dest)])
            } else {
                None
            },
            final(self).links() == links_after_add(
                old(self).links(),
                AbilityPoolLink { volatile, link: PoolLink { link_type, link_dest, weight } },
            ),
    {
        let removed: Option<AbilityPoolLink> = pool_links_extract_first_to(&mut self.pool_links, link_dest);
        pool_links_insert(
            &mut self.pool_links,
            AbilityPoolLink { volatile, link: PoolLink { link_type, link_dest, weight } },
        );
        removed
    }

    /// Removes every link to a pool.
    pub fn remove_link(&mut self, link_dest: ID)
        ensures
            final(self).ownership_struct == old(self).ownership_struct,
            final(self).ability_name == old(self).ability_name,
            final(self).variant == old(self).variant,
            final(self).links() == old(self).links().filter(links_not_to(link_dest)),
    {
        pool_links_retain_not_to(&mut self.pool_links, link_dest)
    }
}

} // verus!

verus! {

impl AbilityBehaviour {
    /// The player the behaviour is aimed at.
    pub open spec fn target(&self) -> ID {
        match self {
            AbilityBehaviour::Pseudocide(p) => p.target_id,
            AbilityBehaviour::Gun(g) => g.target_id,
        }
    }

    /// A copy of the behaviour and its arguments.
    pub fn duplicate(&self) -> (b: AbilityBehaviour)
        ensures
            b == *self,
    {
        match self {
            AbilityBehaviour::Pseudocide(p) => AbilityBehaviour::Pseudocide(Pseudocide {
                target_id: p.target_id,
                true_name: p.true_name.clone(),
                death_message: p.death_message.clone(),
                role: p.role,
                notebook_transferred: p.notebook_transferred,
                ability_transferred: p.ability_transferred,
            }),
            AbilityBehaviour::Gun(g) => AbilityBehaviour::Gun(Gun { target_id: g.target_id }),
        }
    }

    /// What the behaviour answers when it succeeds.
    /// The commands a successful use adds to `c0`, giving `c1`, when it leaves the engine
    /// as `e1`: the bug updates of the kill, then, for a pseudocide, the announcement of
    /// the death under the given name in lower case.
    pub open spec fn cmds_added(&self, c0: Seq<CommandPacket>, c1: Seq<CommandPacket>, e1: Engine) -> bool {
        let bugs = all_bug_cmds(e1.world, e1.time)->Ok_0;
        match self {
            AbilityBehaviour::Gun(_) => c1 == c0 + bugs,
            AbilityBehaviour::Pseudocide(p) => {
                &&& c1.len() == c0.len() + bugs.len() + 1
                &&& c1.drop_last() == c0 + bugs
                &&& c1.last() == (CommandPacket {
                    cmd: Command::AnnounceDeath {
                        true_name: c1.last().cmd->true_name,
                        death_message: p.death_message,
                        role: p.role,
                        notebook_transferred: p.notebook_transferred,
                        ability_transferred: p.ability_transferred,
                    },
                    recipient: None,
                    timestamp: e1.time,
                })
                &&& c1.last().cmd->true_name@ == lowercase(p.true_name@)
            },
        }
    }

    /// Who is named as the killer when `actor` uses the behaviour: the user of a gun; nobody
    /// for a pseudocide.
    pub open spec fn killer(&self, actor: ActionActor) -> Option<ID> {
        match self {
            AbilityBehaviour::Pseudocide(_) => None,
            AbilityBehaviour::Gun(_) => actor.acting_id(),
        }
    }

    pub open spec fn response(&self) -> AbilityResponse {
        match self {
            AbilityBehaviour::Pseudocide(_) => AbilityResponse::Pseudocide(PseudocideResponse {}),
            AbilityBehaviour::Gun(_) => AbilityResponse::Gun(GunResponse {}),
        }
    }
}

impl AbilityInterface for AbilityBehaviour {
    open spec fn ready(&self, e: Engine) -> bool {
        match self {
            AbilityBehaviour::Pseudocide(p) => p.ready(e),
            AbilityBehaviour::Gun(g) => g.ready(e),
        }
    }

    open spec fn name_spec(&self) -> AbilityName {
        match self {
            AbilityBehaviour::Pseudocide(p) => p.name_spec(),
            AbilityBehaviour::Gun(g) => g.name_spec(),
        }
    }

    fn ability_name(&self) -> (n: AbilityName) {
        match self {
            AbilityBehaviour::Pseudocide(p) => p.ability_name(),
            AbilityBehaviour::Gun(g) => g.ability_name(),
        }
    }

    /// Runs the behaviour: each kills its target (a pseudocide also announces the death
    /// and schedules the revival).
    fn handle(
        &mut self,
        eng: &mut Engine,
        ctx: &mut ActionContext,
        actor: &ActionActor,
        ability: ID,
        version: u8,
        mutate: bool,
    ) -> (r: AbilityResult)
        ensures
            final(eng).only_touches(*old(eng), Touched { actors: true, abilities: true, channels: true, jobs: true, ..Touched::nothing() }),
            !mutate ==> final(eng).unchanged(*old(eng)),
            r == match kill_result(old(self).target(), *old(eng), *final(eng), ActionActor::System) {
                Err(e) => Err::<AbilityResponse, ActionError>(e),
                Ok(_) => Ok(old(self).response()),
            },
            mutate && r is Ok ==> killed(old(self).target(), old(self).killer(*actor), *old(eng), *final(eng)),
            *old(self) is Gun ==> final(eng).jobs@ == old(eng).jobs@,
            r is Ok ==> old(self).cmds_added(old(ctx).commands@, final(ctx).commands@, *final(eng)),
    {
        match self {
            AbilityBehaviour::Pseudocide(p) => p.handle(eng, ctx, actor, ability, version, mutate),
            AbilityBehaviour::Gun(g) => g.handle(eng, ctx, actor, ability, version, mutate),
        }
    }
}

} // verus!

verus! {

/// The lesser of two use counts, `None` standing for no limit.
pub open spec fn min_uses(a: Option<ChargeCount>, b: Option<ChargeCount>) -> Option<ChargeCount> {
    match (a, b) {
        (None, x) => x,
        (x, None) => x,
        (Some(x), Some(y)) => Some(if x <= y { x } else { y }),
    }
}

/// The greater of two use counts, `None` standing for no limit.
pub open spec fn max_uses(a: Option<ChargeCount>, b: Option<ChargeCount>) -> Option<ChargeCount> {
    match (a, b) {
        (Some(x), Some(y)) => Some(if x >= y { x } else { y }),
        _ => None,
    }
}

/// How many uses a pool with `charges` allows at `weight` a use (`None`: any number).
pub open spec fn uses_at(charges: ChargeCount, weight: LinkWeight) -> Option<ChargeCount> {
    if weight == 0 { None } else { Some((charges / weight) as ChargeCount) }
}

/// Where a count of uses over a list of links stands: the tightest limit link, whether a
/// pool link was met, and the best pool link.
pub ghost struct UsageCount {
    pub limit: Option<ChargeCount>,
    pub has_pool: bool,
    pub pool: Option<ChargeCount>,
}

/// The count over the links `ls` with the pools `pools`; `None` if a linked pool is missing.
pub open spec fn usage_count(ls: Seq<AbilityPoolLink>, pools: Map<ID, ChargePool>) -> Option<UsageCount>
    decreases ls.len(),
{
    if ls.len() == 0 {
        Some(UsageCount { limit: None, has_pool: false, pool: None })
    } else {
        match usage_count(ls.drop_last(), pools) {
            None => None,
            Some(c) => {
                let l = ls.last();
                if !pools.contains_key(l.link.link_dest) {
                    None
                } else {
                    let u = uses_at(pools[l.link.link_dest].charges, l.link.weight);
                    match l.link.link_type {
                        PoolLinkType::Limit => Some(UsageCount { limit: min_uses(c.limit, u), ..c }),
                        PoolLinkType::Pool => Some(UsageCount {
                            has_pool: true,
                            pool: if c.has_pool { max_uses(c.pool, u) } else { u },
                            ..c
                        }),
                    }
                }
            },
        }
    }
}

/// How many more times the links `ls` let an ability be used (`None`: without end): as
/// many as every limit link allows, and as the best pool link allows if there is one.
pub open spec fn usage_limit(ls: Seq<AbilityPoolLink>, pools: Map<ID, ChargePool>) -> Option<Option<ChargeCount>> {
    match usage_count(ls, pools) {
        None => None,
        Some(c) => Some(min_uses(c.limit, if c.has_pool { c.pool } else { None })),
    }
}

impl Ability {
    /// How many more times the ability can be used with the charges its pools hold now
    /// (`None`: without end); `ChargePoolNotFound` if a linked pool does not exist.
    pub fn get_usage_limit(&self, eng: &Engine) -> (r: Result<Option<ChargeCount>, ActionError>)
        ensures
            r == match usage_limit(self.links(), eng.world.charge_pools@) {
                None => Err::<Option<ChargeCount>, ActionError>(ActionError::ChargePoolNotFound),
                Some(n) => Ok(n),
            },
    {
        let n: usize = pool_links_len(&self.pool_links);
        let mut limit: Option<ChargeCount> = None;
        let mut has_pool: bool = false;
        let mut pool: Option<ChargeCount> = None;
        let mut i: usize = 0;
        let ghost pools = eng.world.charge_pools@;
        while i < n
            invariant
                n == self.links().len(),
                i <= n,
                pools == eng.world.charge_pools@,
                usage_count(self.links().take(i as int), pools) == Some(UsageCount { limit, has_pool, pool }),
            decreases n - i,
        {
            let l: AbilityPoolLink = pool_links_get_index(&self.pool_links, i).unwrap();
            proof {
                assert(self.links().take(i as int + 1).drop_last() =~= self.links().take(i as int));
                assert(self.links().take(i as int + 1).last() == l);
            }
            let charges: ChargeCount = match eng.world.charge_pools.get(l.link.link_dest) {
                Some(p) => p.charges,
                None => {
                    proof {
                        lemma_usage_count_none_extends(self.links(), pools, i as int + 1);
                    }
                    return Err(ActionError::ChargePoolNotFound);
                },
            };
            let u: Option<ChargeCount> = if l.link.weight == 0 { None } else { Some(charges / l.link.weight) };
            match l.link.link_type {
                PoolLinkType::Limit => {
                    limit = match (limit, u) {
                        (None, x) => x,
                        (x, None) => x,
                        (Some(x), Some(y)) => Some(if x <= y { x } else { y }),
                    };
                },
                PoolLinkType::Pool => {
                    pool = if has_pool {
                        match (pool, u) {
                            (Some(x), Some(y)) => Some(if x >= y { x } else { y }),
                            _ => None,
                        }
                    } else {
                        u
                    };
                    has_pool = true;
                },
            }
            i = i + 1;
        }
        proof {
            assert(self.links().take(n as int) =~= self.links());
        }
        let p: Option<ChargeCount> = if has_pool { pool } else { None };
        Ok(match (limit, p) {
            (None, x) => x,
            (x, None) => x,
            (Some(x), Some(y)) => Some(if x <= y { x } else { y }),
        })
    }
}

/// Once a pool of a prefix of the links is missing, the count over all of them is `None`.
pub proof fn lemma_usage_count_none_extends(ls: Seq<AbilityPoolLink>, pools: Map<ID, ChargePool>, k: int)
    requires
        0 <= k <= ls.len(),
        usage_count(ls.take(k), pools) is None,
    ensures
        usage_count(ls, pools) is None,
    decreases ls.len() - k,
{
    if k < ls.len() {
        assert(ls.take(k + 1).drop_last() =~= ls.take(k));
        lemma_usage_count_none_extends(ls, pools, k + 1);
    } else {
        assert(ls.take(k) =~= ls);
    }
}

} // verus!
