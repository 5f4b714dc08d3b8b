use vstd::prelude::*;

use crate::actor::{ActorLinkType, LeadershipTransferPolicies, Modifier, OrgAbilityPolicies, State};
use crate::chargepool::PoolLinkType;
use crate::common::{ChargeCount, IterationCount, LinkWeight, Time, Variant};
use crate::passive::PassiveType;
use crate::seqmap::lookup;

verus! {

broadcast use vstd::seq_lib::group_seq_properties;

#[derive(Hash, PartialEq, PartialOrd, Eq, Ord, Structural, Debug, Clone, Copy)]
pub enum AbilityName {
    Gun,
    Pseudocide,
    Bug,
}

#[derive(Hash, PartialEq, PartialOrd, Eq, Ord, Structural, Debug, Clone, Copy)]
pub enum Role {
    Civilian,
    Mafioso,
    Detective,
}

#[derive(Hash, PartialEq, PartialOrd, Eq, Ord, Structural, Debug, Clone, Copy)]
pub enum OrganizationName {
    NULL,
    Mafia,
}

/// Name of an actor-level charge pool.
pub type PoolName = u32;

/// An ability kind: its name and variant.
#[derive(Hash, PartialEq, PartialOrd, Eq, Ord, Structural, Debug, Clone, Copy)]
pub struct AbilityIdentifier {
    pub name: AbilityName,
    pub variant: Variant,
}

/// Where a configured link of an ability points.
#[derive(PartialEq, Eq, Structural, Debug, Clone, Copy)]
pub enum ConfigPoolLinkDetails {
    /// The owning actor's pool of this name.
    Actor(PoolName),
}

#[derive(PartialEq, Eq, Structural, Debug, Clone, Copy)]
pub struct ConfigPoolLink {
    pub details: ConfigPoolLinkDetails,
    pub link_type: PoolLinkType,
    pub weight: LinkWeight,
}

#[derive(PartialEq, Eq, Debug, Clone)]
pub struct AbilityConfig {
    /// Whether the user must be present (not under `NoPresence`) to use the ability.
    pub require_presence: bool,
    /// Links the ability gets when it is given to an actor.
    pub default_links: Vec<ConfigPoolLink>,
}

#[derive(PartialEq, Eq, Structural, Debug, Clone, Copy)]
pub struct RoleAbility {
    pub identifier: AbilityIdentifier,
    pub transferrable: bool,
}

#[derive(PartialEq, Eq, Structural, Debug, Clone, Copy)]
pub struct RolePassive {
    pub passive_type: PassiveType,
    pub transferrable: bool,
}

#[derive(PartialEq, Eq, Structural, Debug, Clone, Copy)]
pub struct RoleNotebook {
    pub fake: bool,
}

/// A link that a player of a role gets to every other player of `role`.
#[derive(PartialEq, Eq, Structural, Debug, Clone, Copy)]
pub struct RoleActorLink {
    pub role: Role,
    pub link_type: ActorLinkType,
}

#[derive(PartialEq, Eq, Debug, Clone)]
pub struct RoleConfig {
    pub abilities: Vec<RoleAbility>,
    pub passives: Vec<RolePassive>,
    pub notebooks: Vec<RoleNotebook>,
    pub actor_links: Vec<RoleActorLink>,
}

/// A charge pool that every player gets when it is added.
#[derive(PartialEq, Eq, Structural, Debug, Clone, Copy)]
pub struct ActorPoolConfig {
    pub name: PoolName,
    pub base_charges: ChargeCount,
    pub base_reset_time: IterationCount,
}

#[derive(PartialEq, Eq, Debug, Clone)]
pub struct OrgAbilityConfig {
    pub identifier: AbilityIdentifier,
    pub require_roles: Vec<Role>,
    pub require_members: u32,
    pub usage_policies: OrgAbilityPolicies,
}

#[derive(PartialEq, Eq, Structural, Debug, Clone, Copy)]
pub struct LeadershipConfig {
    pub transfer_policies: LeadershipTransferPolicies,
}

#[derive(PartialEq, Eq, Debug, Clone)]
pub struct OrgConfig {
    pub abilities: Vec<OrgAbilityConfig>,
    pub passives: Vec<PassiveType>,
    pub leadership: Option<LeadershipConfig>,
}

#[derive(PartialEq, Eq, Debug, Clone)]
pub struct Defaults {
    /// Abilities every player gets when added.
    pub universal_abilities: Vec<AbilityIdentifier>,
    pub pseudocide_duration: Time,
    pub org_vote_time: Time,
}

/// The rules of a game.  Each table is a list of entries; the last entry for a key counts.
#[derive(PartialEq, Eq, Debug, Clone)]
pub struct Config {
    pub abilities: Vec<(AbilityIdentifier, AbilityConfig)>,
    pub roles: Vec<(Role, RoleConfig)>,
    pub state_modifiers: Vec<(State, Vec<Modifier>)>,
    pub org_config: Vec<(OrganizationName, OrgConfig)>,
    pub actor_pools: Vec<ActorPoolConfig>,
    pub defaults: Defaults,
}

impl Config {
    pub open spec fn ability_spec(&self, id: AbilityIdentifier) -> Option<AbilityConfig> {
        lookup(self.abilities@, id)
    }

    pub open spec fn role_spec(&self, role: Role) -> Option<RoleConfig> {
        lookup(self.roles@, role)
    }

    pub open spec fn org_spec(&self, name: OrganizationName) -> Option<OrgConfig> {
        lookup(self.org_config@, name)
    }

    /// The modifiers that a state brings (none if the config names none).
    pub open spec fn modifiers_spec(&self, state: State) -> Seq<Modifier> {
        match lookup(self.state_modifiers@, state) {
            Some(v) => v@,
            None => Seq::<Modifier>::empty(),
        }
    }

    pub fn ability_config(&self, id: AbilityIdentifier) -> (r: Option<&AbilityConfig>)
        ensures
            r matches Some(c) ==> self.ability_spec(id) == Some(*c),
            r is None ==> self.ability_spec(id) is None,
    {
        let n: usize = self.abilities.len();
        let mut found: Option<&AbilityConfig> = None;
        let mut i: usize = 0;
        while i < n
            invariant
                n == self.abilities@.len(),
                i <= n,
                found matches Some(c) ==> lookup(self.abilities@.take(i as int), id) == Some(*c),
                found is None ==> lookup(self.abilities@.take(i as int), id) is None,
            decreases n - i,
        {
            assert(self.abilities@.take(i as int + 1).drop_last() =~= self.abilities@.take(i as int));
            if self.abilities[i].0 == id {
                found = Some(&self.abilities[i].1);
            }
            i = i + 1;
        }
        assert(self.abilities@.take(n as int) =~= self.abilities@);
        found
    }

    pub fn role_config(&self, role: Role) -> (r: Option<&RoleConfig>)
        ensures
            r matches Some(c) ==> self.role_spec(role) == Some(*c),
            r is None ==> self.role_spec(role) is None,
    {
        let n: usize = self.roles.len();
        let mut found: Option<&RoleConfig> = None;
        let mut i: usize = 0;
        while i < n
            invariant
                n == self.roles@.len(),
                i <= n,
                found matches Some(c) ==> lookup(self.roles@.take(i as int), role) == Some(*c),
                found is None ==> lookup(self.roles@.take(i as int), role) is None,
            decreases n - i,
        {
            assert(self.roles@.take(i as int + 1).drop_last() =~= self.roles@.take(i as int));
            if self.roles[i].0 == role {
                found = Some(&self.roles[i].1);
            }
            i = i + 1;
        }
        assert(self.roles@.take(n as int) =~= self.roles@);
        found
    }

    pub fn org(&self, name: OrganizationName) -> (r: Option<&OrgConfig>)
        ensures
            r matches Some(c) ==> self.org_spec(name) == Some(*c),
            r is None ==> self.org_spec(name) is None,
    {
        let n: usize = self.org_config.len();
        let mut found: Option<&OrgConfig> = None;
        let mut i: usize = 0;
        while i < n
            invariant
                n == self.org_config@.len(),
                i <= n,
                found matches Some(c) ==> lookup(self.org_config@.take(i as int), name) == Some(*c),
                found is None ==> lookup(self.org_config@.take(i as int), name) is None,
            decreases n - i,
        {
            assert(self.org_config@.take(i as int + 1).drop_last() =~= self.org_config@.take(i as int));
            if self.org_config[i].0 == name {
                found = Some(&self.org_config[i].1);
            }
            i = i + 1;
        }
        assert(self.org_config@.take(n as int) =~= self.org_config@);
        found
    }

    /// A copy of the modifiers that a state brings (empty if the config names none).
    pub fn modifiers_of(&self, state: State) -> (r: Vec<Modifier>)
        ensures
            r@ == self.modifiers_spec(state),
    {
        let n: usize = self.state_modifiers.len();
        let mut found: Option<&Vec<Modifier>> = None;
        let mut i: usize = 0;
        while i < n
            invariant
                n == self.state_modifiers@.len(),
                i <= n,
                found matches Some(c) ==> lookup(self.state_modifiers@.take(i as int), state) == Some(*c),
                found is None ==> lookup(self.state_modifiers@.take(i as int), state) is None,
            decreases n - i,
        {
            assert(self.state_modifiers@.take(i as int + 1).drop_last() =~= self.state_modifiers@.take(i as int));
            if self.state_modifiers[i].0 == state {
                found = Some(&self.state_modifiers[i].1);
            }
            i = i + 1;
        }
        assert(self.state_modifiers@.take(n as int) =~= self.state_modifiers@);
        let mut out: Vec<Modifier> = Vec::new();
        match found {
            Some(mods) => {
                let k: usize = mods.len();
                let mut j: usize = 0;
                while j < k
                    invariant
                        k == mods@.len(),
                        j <= k,
                        out@ == mods@.take(j as int),
                    decreases k - j,
                {
                    out.push(mods[j]);
                    assert(mods@.take(j as int + 1) =~= mods@.take(j as int).push(mods@[j as int]));
                    j = j + 1;
                }
                assert(mods@.take(k as int) =~= mods@);
            },
            None => {},
        }
        out
    }
}

} // verus!
