use vstd::prelude::*;

use crate::ability::Ability;
use crate::action::{ActionActor, ActionError};
use crate::actor::{Actor, ActorType, Organization, Player};
use crate::bug::Bug;
use crate::channel::Channel;
use crate::chargepool::ChargePool;
use crate::common::{ID, Time};
use crate::config::{AbilityConfig, AbilityIdentifier, Role, RoleConfig};
use crate::engine::{Engine, World};
use crate::groupchat::Groupchat;
use crate::lounge::Lounge;
use crate::notebook::Notebook;
use crate::passive::{Passive, PassiveType};
use crate::actor::ActorLinkType;

verus! {

pub fn get_charge_pool(eng: &Engine, id: ID) -> (r: Result<&ChargePool, ActionError>)
    ensures
        r matches Ok(p) ==> eng.world.charge_pools@.contains_key(id) && *p == eng.world.charge_pools@[id] && eng.world.charge_pools.has_slot(id),
        r is Err ==> !eng.world.charge_pools@.contains_key(id) && r == Err::<&ChargePool, ActionError>(ActionError::ChargePoolNotFound),
{
    match eng.world.charge_pools.get(id) {
        Some(p) => Ok(p),
        None => Err(ActionError::ChargePoolNotFound),
    }
}

pub fn get_ability(eng: &Engine, id: ID) -> (r: Result<&Ability, ActionError>)
    ensures
        r matches Ok(a) ==> eng.world.abilities@.contains_key(id) && *a == eng.world.abilities@[id] && eng.world.abilities.has_slot(id),
        r is Err ==> !eng.world.abilities@.contains_key(id) && r == Err::<&Ability, ActionError>(ActionError::AbilityNotFound),
{
    match eng.world.abilities.get(id) {
        Some(a) => Ok(a),
        None => Err(ActionError::AbilityNotFound),
    }
}

pub fn get_actor(eng: &Engine, id: ID) -> (r: Result<&Actor, ActionError>)
    ensures
        r matches Ok(a) ==> eng.world.actors@.contains_key(id) && *a == eng.world.actors@[id] && eng.world.actors.has_slot(id),
        r is Err ==> !eng.world.actors@.contains_key(id) && r == Err::<&Actor, ActionError>(ActionError::ActorNotFound),
{
    match eng.world.actors.get(id) {
        Some(a) => Ok(a),
        None => Err(ActionError::ActorNotFound),
    }
}

/// The player with a key: `ActorNotFound` if there is no actor, `NotAPlayer` if it is an
/// organization.
pub fn get_player(eng: &Engine, id: ID) -> (r: Result<&Player, ActionError>)
    ensures
        r matches Ok(p) ==> eng.world.is_player(id) && *p == eng.world.player(id) && eng.world.actors.has_slot(id),
        r is Err ==> !eng.world.is_player(id),
        r == Err::<&Player, ActionError>(ActionError::ActorNotFound) <==> !eng.world.actors@.contains_key(id),
        r == Err::<&Player, ActionError>(ActionError::NotAPlayer) <==> eng.world.actors@.contains_key(id) && !eng.world.is_player(id),
{
    match eng.world.actors.get(id) {
        Some(a) => match &a.actor_type {
            ActorType::Player(p) => Ok(p),
            ActorType::Organization(_) => Err(ActionError::NotAPlayer),
        },
        None => Err(ActionError::ActorNotFound),
    }
}

/// The organization with a key: `ActorNotFound` if there is no actor, `NotAnOrg` if it is
/// a player.
pub fn get_org(eng: &Engine, id: ID) -> (r: Result<&Organization, ActionError>)
    ensures
        r matches Ok(o) ==> eng.world.is_org(id) && *o == eng.world.org(id) && eng.world.actors.has_slot(id),
        r is Err ==> !eng.world.is_org(id),
        r == Err::<&Organization, ActionError>(ActionError::ActorNotFound) <==> !eng.world.actors@.contains_key(id),
        r == Err::<&Organization, ActionError>(ActionError::NotAnOrg) <==> eng.world.actors@.contains_key(id) && !eng.world.is_org(id),
{
    match eng.world.actors.get(id) {
        Some(a) => match &a.actor_type {
            ActorType::Organization(o) => Ok(o),
            ActorType::Player(_) => Err(ActionError::NotAnOrg),
        },
        None => Err(ActionError::ActorNotFound),
    }
}

pub fn get_passive(eng: &Engine, id: ID) -> (r: Result<&Passive, ActionError>)
    ensures
        r matches Ok(p) ==> eng.world.passives@.contains_key(id) && *p == eng.world.passives@[id] && eng.world.passives.has_slot(id),
        r is Err ==> !eng.world.passives@.contains_key(id) && r == Err::<&Passive, ActionError>(ActionError::PassiveNotFound),
{
    match eng.world.passives.get(id) {
        Some(p) => Ok(p),
        None => Err(ActionError::PassiveNotFound),
    }
}

pub fn get_notebook(eng: &Engine, id: ID) -> (r: Result<&Notebook, ActionError>)
    ensures
        r matches Ok(n) ==> eng.world.notebooks@.contains_key(id) && *n == eng.world.notebooks@[id] && eng.world.notebooks.has_slot(id),
        r is Err ==> !eng.world.notebooks@.contains_key(id) && r == Err::<&Notebook, ActionError>(ActionError::NotebookNotFound),
{
    match eng.world.notebooks.get(id) {
        Some(n) => Ok(n),
        None => Err(ActionError::NotebookNotFound),
    }
}

pub fn get_bug(eng: &Engine, id: ID) -> (r: Result<&Bug, ActionError>)
    ensures
        r matches Ok(b) ==> eng.world.bugs@.contains_key(id) && *b == eng.world.bugs@[id] && eng.world.bugs.has_slot(id),
        r is Err ==> !eng.world.bugs@.contains_key(id) && r == Err::<&Bug, ActionError>(ActionError::BugNotFound),
{
    match eng.world.bugs.get(id) {
        Some(b) => Ok(b),
        None => Err(ActionError::BugNotFound),
    }
}

pub fn get_channel(eng: &Engine, id: ID) -> (r: Result<&Channel, ActionError>)
    ensures
        r matches Ok(c) ==> eng.world.channels@.contains_key(id) && *c == eng.world.channels@[id] && eng.world.channels.has_slot(id),
        r is Err ==> !eng.world.channels@.contains_key(id) && r == Err::<&Channel, ActionError>(ActionError::ChannelNotFound),
{
    match eng.world.channels.get(id) {
        Some(c) => Ok(c),
        None => Err(ActionError::ChannelNotFound),
    }
}

pub fn get_gc(eng: &Engine, id: ID) -> (r: Result<&Groupchat, ActionError>)
    ensures
        r matches Ok(g) ==> eng.world.groupchats@.contains_key(id) && *g == eng.world.groupchats@[id] && eng.world.groupchats.has_slot(id),
        r is Err ==> !eng.world.groupchats@.contains_key(id) && r == Err::<&Groupchat, ActionError>(ActionError::GroupchatNotFound),
{
    match eng.world.groupchats.get(id) {
        Some(g) => Ok(g),
        None => Err(ActionError::GroupchatNotFound),
    }
}

pub fn get_lounge(eng: &Engine, id: ID) -> (r: Result<&Lounge, ActionError>)
    ensures
        r matches Ok(l) ==> eng.world.lounges@.contains_key(id) && *l == eng.world.lounges@[id] && eng.world.lounges.has_slot(id),
        r is Err ==> !eng.world.lounges@.contains_key(id) && r == Err::<&Lounge, ActionError>(ActionError::LoungeNotFound),
{
    match eng.world.lounges.get(id) {
        Some(l) => Ok(l),
        None => Err(ActionError::LoungeNotFound),
    }
}

/// The config of an ability kind.
pub fn get_config_of(eng: &Engine, id: AbilityIdentifier) -> (r: Result<&AbilityConfig, ActionError>)
    ensures
        r matches Ok(c) ==> eng.config.ability_spec(id) == Some(*c),
        r is Err ==> eng.config.ability_spec(id) is None && r == Err::<&AbilityConfig, ActionError>(ActionError::AbilityConfigNotFound),
{
    match eng.config.ability_config(id) {
        Some(c) => Ok(c),
        None => Err(ActionError::AbilityConfigNotFound),
    }
}

/// The config of the kind of an ability of the world.
pub fn get_ability_config(eng: &Engine, ability_id: ID) -> (r: Result<&AbilityConfig, ActionError>)
    ensures
        !eng.world.abilities@.contains_key(ability_id) ==> r == Err::<&AbilityConfig, ActionError>(ActionError::AbilityNotFound),
        eng.world.abilities@.contains_key(ability_id) ==> {
            let a = eng.world.abilities@[ability_id];
            let id = AbilityIdentifier { name: a.ability_name, variant: a.variant };
            &&& r matches Ok(c) ==> eng.config.ability_spec(id) == Some(*c)
            &&& r is Err ==> eng.config.ability_spec(id) is None && r == Err::<&AbilityConfig, ActionError>(ActionError::AbilityConfigNotFound)
        },
{
    let ability = get_ability(eng, ability_id)?;
    get_config_of(eng, AbilityIdentifier { name: ability.ability_name, variant: ability.variant })
}

pub fn get_role_config(eng: &Engine, role: Role) -> (r: Result<&RoleConfig, ActionError>)
    ensures
        r matches Ok(c) ==> eng.config.role_spec(role) == Some(*c),
        r is Err ==> eng.config.role_spec(role) is None && r == Err::<&RoleConfig, ActionError>(ActionError::RoleConfigNotFound),
{
    match eng.config.role_config(role) {
        Some(c) => Ok(c),
        None => Err(ActionError::RoleConfigNotFound),
    }
}

/// Refuses a time that has already passed.
pub fn require_time_not_passed(eng: &Engine, time: Time) -> (r: Result<(), ActionError>)
    ensures
        r == if time < eng.time { Err::<(), ActionError>(ActionError::TimePassed) } else { Ok(()) },
{
    if time < eng.time {
        Err(ActionError::TimePassed)
    } else {
        Ok(())
    }
}

/// The actor a request acts for: the player, or the organization.
pub fn actor_id(actor: &ActionActor) -> (r: Option<ID>)
    ensures
        r == actor.acting_id(),
{
    match actor {
        ActionActor::Player(id) => Some(*id),
        ActionActor::Organization(o) => Some(o.org_id),
        _ => None,
    }
}

/// Whether actor `a` holds a passive of type `t` itself.
pub open spec fn holds_passive(w: World, a: ID, t: PassiveType) -> bool {
    &&& w.actors@.contains_key(a)
    &&& exists|i: int| 0 <= i < w.actors@[a].passives@.len()
        && w.passives@.contains_key(#[trigger] w.actors@[a].passives@[i])
        && w.passives@[w.actors@[a].passives@[i]].passive_type == t
}

/// Whether actor `a` has a passive of type `t` in effect: its own, or one of an actor it
/// has a `Passive` link to (as organization members do).
pub open spec fn has_effective_passive(w: World, a: ID, t: PassiveType) -> bool {
    ||| holds_passive(w, a, t)
    ||| (w.actors@.contains_key(a) && exists|j: int| 0 <= j < w.actors@[a].links@.len()
        && (#[trigger] w.actors@[a].links@[j]).link_type == ActorLinkType::Passive
        && holds_passive(w, w.actors@[a].links@[j].link_dest, t))
}

fn holds_passive_exec(eng: &Engine, a: ID, t: PassiveType) -> (r: Option<ID>)
    ensures
        r is Some <==> holds_passive(eng.world, a, t),
        r matches Some(id) ==> eng.world.passives@.contains_key(id) && eng.world.passives@[id].passive_type == t,
{
    let actor = match eng.world.actors.get(a) {
        Some(x) => x,
        None => return None,
    };
    let n: usize = actor.passives.len();
    let mut i: usize = 0;
    while i < n
        invariant
            n == actor.passives@.len(),
            i <= n,
            *actor == eng.world.actors@[a],
            eng.world.actors@.contains_key(a),
            forall|j: int| 0 <= j < i ==> !(eng.world.passives@.contains_key(#[trigger] actor.passives@[j])
                && eng.world.passives@[actor.passives@[j]].passive_type == t),
        decreases n - i,
    {
        let pid: ID = actor.passives[i];
        match eng.world.passives.get(pid) {
            Some(p) => {
                if p.passive_type == t {
                    return Some(pid);
                }
            },
            None => {},
        }
        i = i + 1;
    }
    None
}

/// A passive of type `t` that actor `a` has in effect, if any: its own first, then one of
/// an actor it has a `Passive` link to.
pub fn actor_get_effective_passive(eng: &Engine, a: ID, t: PassiveType) -> (r: Option<ID>)
    ensures
        r is Some <==> has_effective_passive(eng.world, a, t),
        r matches Some(id) ==> eng.world.passives@.contains_key(id) && eng.world.passives@[id].passive_type == t,
{
    let own = holds_passive_exec(eng, a, t);
    if own.is_some() {
        return own;
    }
    let actor = match eng.world.actors.get(a) {
        Some(x) => x,
        None => return None,
    };
    let n: usize = actor.links.len();
    let mut j: usize = 0;
    while j < n
        invariant
            n == actor.links@.len(),
            j <= n,
            *actor == eng.world.actors@[a],
            eng.world.actors@.contains_key(a),
            !holds_passive(eng.world, a, t),
            forall|q: int| 0 <= q < j ==> !((#[trigger] actor.links@[q]).link_type == ActorLinkType::Passive
                && holds_passive(eng.world, actor.links@[q].link_dest, t)),
        decreases n - j,
    {
        let link = actor.links[j];
        if link.link_type == ActorLinkType::Passive {
            let found = holds_passive_exec(eng, link.link_dest, t);
            if found.is_some() {
                return found;
            }
        }
        j = j + 1;
    }
    None
}

/// The player a request comes from, if it comes from a player.
pub fn player_id(actor: &ActionActor) -> (r: Option<ID>)
    ensures
        r == match *actor {
            ActionActor::Player(id) => Some(id),
            _ => None::<ID>,
        },
{
    match actor {
        ActionActor::Player(id) => Some(*id),
        _ => None,
    }
}

} // verus!
