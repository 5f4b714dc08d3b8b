use vstd::prelude::*;

use crate::common::ID;
use crate::config::{OrganizationName, PoolName, Role};
use crate::idset::{insert_id, remove_id, without};
use crate::seqmap::{lookup, remove_key, without_key, get_key};

verus! {

broadcast use vstd::seq_lib::group_seq_properties;

/// A condition an actor can be in.
#[derive(Hash, PartialEq, PartialOrd, Eq, Ord, Structural, Debug, Clone, Copy)]
pub enum State {
    Dead,
    Kidnapped,
    Imprisoned,
}

/// An effect that a state has on an actor (given per state by the config).
#[derive(Hash, PartialEq, PartialOrd, Eq, Ord, Structural, Debug, Clone, Copy)]
pub enum Modifier {
    /// The actor is not present: it cannot use abilities that require presence.
    NoPresence,
    /// The actor cannot contact others.
    NoContact,
}

#[derive(Hash, PartialEq, PartialOrd, Eq, Ord, Structural, Debug, Clone, Copy)]
pub enum ActorLinkType {
    /// The actor has the effective passives of the link's destination.
    Passive,
    /// The actor knows who the link's destination is.
    Knows,
}

#[derive(Hash, PartialEq, PartialOrd, Eq, Ord, Structural, Debug, Clone, Copy)]
pub struct ActorLink {
    pub link_type: ActorLinkType,
    pub link_dest: ID,
}

/// A state of an actor together with the modifiers it brought.
#[derive(PartialEq, Eq, Debug, Clone)]
pub struct StateEntry {
    pub state: State,
    pub modifiers: Vec<Modifier>,
}

#[derive(PartialEq, Eq, Debug, Clone)]
pub struct Player {
    pub true_name: String,
    pub role: Role,
    pub lounges: Vec<ID>,
    pub groupchats: Vec<ID>,
    pub bugs: Vec<ID>,
}

impl Player {
    pub fn new(true_name: String, role: Role) -> (p: Self)
        ensures
            p.true_name == true_name,
            p.role == role,
            p.lounges@ == Seq::<ID>::empty(),
            p.groupchats@ == Seq::<ID>::empty(),
            p.bugs@ == Seq::<ID>::empty(),
    {
        Player { true_name, role, lounges: Vec::new(), groupchats: Vec::new(), bugs: Vec::new() }
    }

    pub fn add_lounge(&mut self, id: ID)
        ensures
            *final(self) == (Player { lounges: final(self).lounges, ..*old(self) }),
            final(self).lounges@ == if old(self).lounges@.contains(id) { old(self).lounges@ } else { old(self).lounges@.push(id) },
    {
        insert_id(&mut self.lounges, id);
    }

    pub fn remove_lounge(&mut self, id: ID)
        ensures
            *final(self) == (Player { lounges: final(self).lounges, ..*old(self) }),
            final(self).lounges@ == without(old(self).lounges@, id),
    {
        remove_id(&mut self.lounges, id);
    }

    pub fn add_groupchat(&mut self, id: ID)
        ensures
            *final(self) == (Player { groupchats: final(self).groupchats, ..*old(self) }),
            final(self).groupchats@ == if old(self).groupchats@.contains(id) { old(self).groupchats@ } else { old(self).groupchats@.push(id) },
    {
        insert_id(&mut self.groupchats, id);
    }

    pub fn remove_groupchat(&mut self, id: ID)
        ensures
            *final(self) == (Player { groupchats: final(self).groupchats, ..*old(self) }),
            final(self).groupchats@ == without(old(self).groupchats@, id),
    {
        remove_id(&mut self.groupchats, id);
    }

    pub fn add_bug(&mut self, id: ID)
        ensures
            *final(self) == (Player { bugs: final(self).bugs, ..*old(self) }),
            final(self).bugs@ == if old(self).bugs@.contains(id) { old(self).bugs@ } else { old(self).bugs@.push(id) },
    {
        insert_id(&mut self.bugs, id);
    }

    pub fn remove_bug(&mut self, id: ID)
        ensures
            *final(self) == (Player { bugs: final(self).bugs, ..*old(self) }),
            final(self).bugs@ == without(old(self).bugs@, id),
    {
        remove_id(&mut self.bugs, id);
    }
}

/// Usage rules of an organization's ability.
#[derive(PartialEq, Eq, Structural, Debug, Clone, Copy)]
pub struct OrgAbilityPolicies {
    pub require_leader: bool,
    pub require_vote: bool,
}

#[derive(PartialEq, Eq, Structural, Debug, Clone, Copy)]
pub enum OrgAbilityPolicy {
    RequireLeader,
    RequireVote,
}

impl OrgAbilityPolicies {
    pub open spec fn has(self, p: OrgAbilityPolicy) -> bool {
        match p {
            OrgAbilityPolicy::RequireLeader => self.require_leader,
            OrgAbilityPolicy::RequireVote => self.require_vote,
        }
    }

    pub fn contains(&self, p: OrgAbilityPolicy) -> (b: bool)
        ensures
            b == self.has(p),
    {
        match p {
            OrgAbilityPolicy::RequireLeader => self.require_leader,
            OrgAbilityPolicy::RequireVote => self.require_vote,
        }
    }
}

/// What an organization keeps about an ability it owns.
#[derive(PartialEq, Eq, Debug, Clone)]
pub struct OrgAbility {
    pub require_roles: Vec<Role>,
    pub require_members: u32,
    pub usage_policies: OrgAbilityPolicies,
}

/// A copy of a list of roles.
pub fn copy_roles(v: &Vec<Role>) -> (r: Vec<Role>)
    ensures
        r@ == v@,
{
    let n: usize = v.len();
    let mut roles: Vec<Role> = Vec::new();
    let mut i: usize = 0;
    while i < n
        invariant
            n == v@.len(),
            i <= n,
            roles@ == v@.take(i as int),
        decreases n - i,
    {
        roles.push(v[i]);
        i = i + 1;
        assert(roles@ =~= v@.take(i as int));
    }
    assert(roles@ =~= v@);
    roles
}

impl OrgAbility {
    /// Whether two settings say the same.
    pub open spec fn same_as(&self, other: OrgAbility) -> bool {
        &&& self.require_roles@ == other.require_roles@
        &&& self.require_members == other.require_members
        &&& self.usage_policies == other.usage_policies
    }

    /// A copy of the settings.
    pub fn duplicate(&self) -> (s: OrgAbility)
        ensures
            s.same_as(*self),
    {
        OrgAbility {
            require_roles: copy_roles(&self.require_roles),
            require_members: self.require_members,
            usage_policies: self.usage_policies,
        }
    }
}

#[derive(PartialEq, Eq, Structural, Debug, Clone, Copy)]
pub struct LeadershipTransferPolicies {
    pub on_death: bool,
    pub by_vote: bool,
}

#[derive(PartialEq, Eq, Structural, Debug, Clone, Copy)]
pub struct LeadershipStruct {
    pub leader: Option<ID>,
    pub transfer_policies: LeadershipTransferPolicies,
}

#[derive(PartialEq, Eq, Debug, Clone)]
pub struct Organization {
    pub name: OrganizationName,
    pub members: Vec<ID>,
    pub abilities: Vec<(ID, OrgAbility)>,
    pub leadership_struct: Option<LeadershipStruct>,
}

impl Organization {
    pub fn new(name: OrganizationName, leadership_struct: Option<LeadershipStruct>) -> (o: Self)
        ensures
            o.name == name,
            o.leadership_struct == leadership_struct,
            o.members@ == Seq::<ID>::empty(),
            o.abilities@ == Seq::<(ID, OrgAbility)>::empty(),
    {
        Organization { name, members: Vec::new(), abilities: Vec::new(), leadership_struct }
    }

    pub fn has_member(&self, id: ID) -> (b: bool)
        ensures
            b == self.members@.contains(id),
    {
        crate::idset::contains_id(&self.members, id)
    }

    pub fn add_member(&mut self, id: ID)
        ensures
            *final(self) == (Organization { members: final(self).members, ..*old(self) }),
            final(self).members@ == if old(self).members@.contains(id) { old(self).members@ } else { old(self).members@.push(id) },
    {
        insert_id(&mut self.members, id);
    }

    pub fn remove_member(&mut self, id: ID)
        ensures
            *final(self) == (Organization { members: final(self).members, ..*old(self) }),
            final(self).members@ == without(old(self).members@, id),
    {
        remove_id(&mut self.members, id);
    }

    /// The settings the organization keeps for one of its abilities.
    pub open spec fn ability_settings(&self, id: ID) -> Option<OrgAbility> {
        lookup(self.abilities@, id)
    }

    pub fn get_ability(&self, id: ID) -> (r: Option<&OrgAbility>)
        ensures
            r matches Some(x) ==> self.ability_settings(id) == Some(*x),
            r is None ==> self.ability_settings(id) is None,
    {
        get_key(&self.abilities, id)
    }

    /// Records an ability of the organization with its settings, replacing earlier settings.
    pub fn add_ability(&mut self, id: ID, settings: OrgAbility)
        ensures
            *final(self) == (Organization { abilities: final(self).abilities, ..*old(self) }),
            final(self).abilities@ == without_key(old(self).abilities@, id).push((id, settings)),
    {
        remove_key(&mut self.abilities, id);
        self.abilities.push((id, settings));
    }
}

#[derive(PartialEq, Eq, Debug, Clone)]
pub enum ActorType {
    Player(Player),
    Organization(Organization),
}

/// A player or an organization, with what it owns and the states it is in.
#[derive(PartialEq, Eq, Debug, Clone)]
pub struct Actor {
    pub actor_type: ActorType,
    pub states: Vec<StateEntry>,
    pub abilities: Vec<ID>,
    pub passives: Vec<ID>,
    pub notebooks: Vec<ID>,
    pub links: Vec<ActorLink>,
    /// The actor's own charge pools, by name.
    pub pool_map: Vec<(PoolName, ID)>,
}

pub open spec fn state_is(s: State) -> spec_fn(StateEntry) -> bool {
    |e: StateEntry| e.state == s
}

pub open spec fn state_is_not(s: State) -> spec_fn(StateEntry) -> bool {
    |e: StateEntry| e.state != s
}

pub open spec fn link_is_not(l: ActorLink) -> spec_fn(ActorLink) -> bool {
    |x: ActorLink| x != l
}

impl Actor {
    pub fn new(actor_type: ActorType) -> (a: Self)
        ensures
            a.actor_type == actor_type,
            a.states@ == Seq::<StateEntry>::empty(),
            a.abilities@ == Seq::<ID>::empty(),
            a.passives@ == Seq::<ID>::empty(),
            a.notebooks@ == Seq::<ID>::empty(),
            a.links@ == Seq::<ActorLink>::empty(),
            a.pool_map@ == Seq::<(PoolName, ID)>::empty(),
    {
        Actor {
            actor_type,
            states: Vec::new(),
            abilities: Vec::new(),
            passives: Vec::new(),
            notebooks: Vec::new(),
            links: Vec::new(),
            pool_map: Vec::new(),
        }
    }

    pub open spec fn is_player(&self) -> bool {
        self.actor_type is Player
    }

    pub open spec fn has_state_spec(&self, s: State) -> bool {
        exists|i: int| 0 <= i < self.states@.len() && #[trigger] self.states@[i].state == s
    }

    pub open spec fn has_modifier_spec(&self, m: Modifier) -> bool {
        exists|i: int| 0 <= i < self.states@.len() && #[trigger] self.states@[i].modifiers@.contains(m)
    }

    pub fn has_state(&self, s: State) -> (b: bool)
        ensures
            b == self.has_state_spec(s),
    {
        let n: usize = self.states.len();
        let mut i: usize = 0;
        while i < n
            invariant
                n == self.states@.len(),
                i <= n,
                forall|j: int| 0 <= j < i ==> self.states@[j].state != s,
            decreases n - i,
        {
            if self.states[i].state == s {
                return true;
            }
            i = i + 1;
        }
        false
    }

    pub fn has_modifier(&self, m: Modifier) -> (b: bool)
        ensures
            b == self.has_modifier_spec(m),
    {
        let n: usize = self.states.len();
        let mut i: usize = 0;
        while i < n
            invariant
                n == self.states@.len(),
                i <= n,
                forall|j: int| 0 <= j < i ==> !self.states@[j].modifiers@.contains(m),
            decreases n - i,
        {
            let mods: &Vec<Modifier> = &self.states[i].modifiers;
            let k: usize = mods.len();
            let mut j: usize = 0;
            while j < k
                invariant
                    k == mods@.len(),
                    j <= k,
                    i < n,
                    n == self.states@.len(),
                    *mods == self.states@[i as int].modifiers,
                    forall|q: int| 0 <= q < j ==> mods@[q] != m,
                decreases k - j,
            {
                if mods[j] == m {
                    assert(self.states@[i as int].modifiers@[j as int] == m);
                    assert(self.states@[i as int].modifiers@.contains(m));
                    return true;
                }
                j = j + 1;
            }
            i = i + 1;
        }
        false
    }

    /// Puts the actor in a state, together with the modifiers that the state brings.
    pub fn add_state(&mut self, state: State, modifiers: Vec<Modifier>)
        ensures
            *final(self) == (Actor { states: final(self).states, ..*old(self) }),
            final(self).states@ == old(self).states@.push(StateEntry { state, modifiers }),
    {
        self.states.push(StateEntry { state, modifiers });
    }

    /// Takes the actor out of a state, with the modifiers that the state brought.
    pub fn remove_state(&mut self, state: State)
        ensures
            *final(self) == (Actor { states: final(self).states, ..*old(self) }),
            final(self).states@ == old(self).states@.filter(state_is_not(state)),
    {
        let ghost orig = self.states@;
        let n: usize = self.states.len();
        let mut i: usize = 0;
        let mut j: usize = 0;
        while j < n
            invariant
                n == orig.len(),
                j <= n,
                i <= j,
                i == orig.take(j as int).filter(state_is_not(state)).len(),
                self.states@ == orig.take(j as int).filter(state_is_not(state)) + orig.skip(j as int),
                *self == (Actor { states: self.states, ..*old(self) }),
            decreases n - j,
        {
            let ghost pre = orig.take(j as int).filter(state_is_not(state));
            proof {
                assert(orig.take(j as int + 1) == orig.take(j as int).push(orig[j as int]));
                orig.take(j as int).lemma_filter_push(orig[j as int], state_is_not(state));
                assert(self.states@[i as int] == orig[j as int]);
            }
            if self.states[i].state == state {
                let _ = self.states.remove(i);
                assert(self.states@ =~= pre + orig.skip(j as int + 1));
            } else {
                assert(self.states@ =~= pre.push(orig[j as int]) + orig.skip(j as int + 1));
                i = i + 1;
            }
            j = j + 1;
        }
        assert(orig.take(n as int) =~= orig);
        assert(self.states@ =~= orig.filter(state_is_not(state)));
    }

    pub fn add_ability(&mut self, id: ID)
        ensures
            *final(self) == (Actor { abilities: final(self).abilities, ..*old(self) }),
            final(self).abilities@ == if old(self).abilities@.contains(id) { old(self).abilities@ } else { old(self).abilities@.push(id) },
    {
        insert_id(&mut self.abilities, id);
    }

    pub fn remove_ability(&mut self, id: ID)
        ensures
            *final(self) == (Actor { abilities: final(self).abilities, ..*old(self) }),
            final(self).abilities@ == without(old(self).abilities@, id),
    {
        remove_id(&mut self.abilities, id);
    }

    pub fn add_passive(&mut self, id: ID)
        ensures
            *final(self) == (Actor { passives: final(self).passives, ..*old(self) }),
            final(self).passives@ == if old(self).passives@.contains(id) { old(self).passives@ } else { old(self).passives@.push(id) },
    {
        insert_id(&mut self.passives, id);
    }

    pub fn remove_passive(&mut self, id: ID)
        ensures
            *final(self) == (Actor { passives: final(self).passives, ..*old(self) }),
            final(self).passives@ == without(old(self).passives@, id),
    {
        remove_id(&mut self.passives, id);
    }

    pub fn add_notebook(&mut self, id: ID)
        ensures
            *final(self) == (Actor { notebooks: final(self).notebooks, ..*old(self) }),
            final(self).notebooks@ == if old(self).notebooks@.contains(id) { old(self).notebooks@ } else { old(self).notebooks@.push(id) },
    {
        insert_id(&mut self.notebooks, id);
    }

    pub fn remove_notebook(&mut self, id: ID)
        ensures
            *final(self) == (Actor { notebooks: final(self).notebooks, ..*old(self) }),
            final(self).notebooks@ == without(old(self).notebooks@, id),
    {
        remove_id(&mut self.notebooks, id);
    }

    /// Adds a link unless an equal one is there.
    pub fn add_link(&mut self, link: ActorLink)
        ensures
            *final(self) == (Actor { links: final(self).links, ..*old(self) }),
            final(self).links@ == if old(self).links@.contains(link) { old(self).links@ } else { old(self).links@.push(link) },
    {
        let n: usize = self.links.len();
        let mut i: usize = 0;
        while i < n
            invariant
                n == self.links@.len(),
                i <= n,
                forall|j: int| 0 <= j < i ==> self.links@[j] != link,
            decreases n - i,
        {
            if self.links[i] == link {
                return;
            }
            i = i + 1;
        }
        self.links.push(link);
    }

    /// Removes every link equal to `link`.
    pub fn sever_link(&mut self, link: ActorLink)
        ensures
            *final(self) == (Actor { links: final(self).links, ..*old(self) }),
            final(self).links@ == old(self).links@.filter(link_is_not(link)),
    {
        let n: usize = self.links.len();
        let mut kept: Vec<ActorLink> = Vec::new();
        let mut i: usize = 0;
        while i < n
            invariant
                n == self.links@.len(),
                i <= n,
                kept@ == self.links@.take(i as int).filter(link_is_not(link)),
            decreases n - i,
        {
            let x: ActorLink = self.links[i];
            proof {
                assert(self.links@.take(i as int + 1) == self.links@.take(i as int).push(x));
                self.links@.take(i as int).lemma_filter_push(x, link_is_not(link));
            }
            if x != link {
                kept.push(x);
            }
            i = i + 1;
        }
        assert(self.links@.take(n as int) == self.links@);
        self.links = kept;
    }

    /// Removes every link of the actor.
    pub fn clear_links(&mut self)
        ensures
            *final(self) == (Actor { links: final(self).links, ..*old(self) }),
            final(self).links@ == Seq::<ActorLink>::empty(),
    {
        self.links = Vec::new();
    }

    /// The actor's pool of a given name.
    pub open spec fn pool_spec(&self, name: PoolName) -> Option<ID> {
        lookup(self.pool_map@, name)
    }

    pub fn pool(&self, name: PoolName) -> (r: Option<ID>)
        ensures
            r == self.pool_spec(name),
    {
        let n: usize = self.pool_map.len();
        let mut found: Option<ID> = None;
        let mut i: usize = 0;
        while i < n
            invariant
                n == self.pool_map@.len(),
                i <= n,
                found == lookup(self.pool_map@.take(i as int), name),
            decreases n - i,
        {
            assert(self.pool_map@.take(i as int + 1).drop_last() =~= self.pool_map@.take(i as int));
            if self.pool_map[i].0 == name {
                found = Some(self.pool_map[i].1);
            }
            i = i + 1;
        }
        assert(self.pool_map@.take(n as int) =~= self.pool_map@);
        found
    }

    /// Records a pool of the actor under a name.
    pub fn add_pool(&mut self, name: PoolName, id: ID)
        ensures
            *final(self) == (Actor { pool_map: final(self).pool_map, ..*old(self) }),
            final(self).pool_map@ == old(self).pool_map@.push((name, id)),
    {
        self.pool_map.push((name, id));
    }
}

} // verus!
