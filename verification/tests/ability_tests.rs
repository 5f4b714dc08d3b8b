#![allow(dead_code, unused_imports)]

use mafia_engine::ability::gun::Gun;
use mafia_engine::ability::AbilityBehaviour;
use mafia_engine::action::ability::add_link::AddLink;
use mafia_engine::action::ability::create_and_give_ability::CreateAndGiveAbility;
use mafia_engine::action::ability::use_ability::UseAbility;
use mafia_engine::action::actor::add_state::AddState;
use mafia_engine::action::actor::player::revive::Revive;
use mafia_engine::action::actor::remove_state::RemoveState;
use mafia_engine::action::add_player::AddPlayer;
use mafia_engine::action::chargepool::add_charge_pool::AddChargePool;
use mafia_engine::action::{Action, ActionActor, ActionContext, ActionError, ActionRequest, ActionResponse};
use mafia_engine::actor::{
    ActorLinkType, LeadershipTransferPolicies, Modifier, OrgAbilityPolicies, State,
};
use mafia_engine::chargepool::PoolLinkType;
use mafia_engine::common::ID;
use mafia_engine::config::{
    AbilityConfig, AbilityIdentifier, AbilityName, ActorPoolConfig, Config, ConfigPoolLink,
    ConfigPoolLinkDetails, Defaults, LeadershipConfig, OrgAbilityConfig, OrgConfig,
    OrganizationName, Role, RoleActorLink, RoleConfig,
};
use mafia_engine::engine::Engine;
use mafia_engine::passive::PassiveType;

fn gun_kind(variant: u8) -> AbilityIdentifier {
    AbilityIdentifier { name: AbilityName::Gun, variant }
}

fn org_ability(variant: u8, leader: bool, vote: bool, members: u32, roles: Vec<Role>) -> OrgAbilityConfig {
    OrgAbilityConfig {
        identifier: gun_kind(variant),
        require_roles: roles,
        require_members: members,
        usage_policies: OrgAbilityPolicies { require_leader: leader, require_vote: vote },
    }
}

/// A small game: guns of variant 0 draw one charge a use from the actor pool 0 (three
/// charges); guns of variant 1 have no links; the dead can neither act nor be contacted.
fn test_config() -> Config {
    let empty_role = RoleConfig { abilities: vec![], passives: vec![], notebooks: vec![], actor_links: vec![] };
    let mafioso = RoleConfig {
        abilities: vec![],
        passives: vec![],
        notebooks: vec![],
        actor_links: vec![RoleActorLink { role: Role::Mafioso, link_type: ActorLinkType::Knows }],
    };
    Config {
        abilities: vec![
            (
                gun_kind(0),
                AbilityConfig {
                    require_presence: true,
                    default_links: vec![ConfigPoolLink {
                        details: ConfigPoolLinkDetails::Actor(0),
                        link_type: PoolLinkType::Limit,
                        weight: 1,
                    }],
                },
            ),
            (gun_kind(1), AbilityConfig { require_presence: true, default_links: vec![] }),
            (gun_kind(2), AbilityConfig { require_presence: false, default_links: vec![] }),
            (
                AbilityIdentifier { name: AbilityName::Pseudocide, variant: 0 },
                AbilityConfig { require_presence: true, default_links: vec![] },
            ),
        ],
        roles: vec![
            (Role::Civilian, empty_role.clone()),
            (Role::Detective, empty_role),
            (Role::Mafioso, mafioso),
        ],
        state_modifiers: vec![(State::Dead, vec![Modifier::NoPresence, Modifier::NoContact])],
        org_config: vec![
            (
                OrganizationName::NULL,
                OrgConfig {
                    abilities: vec![
                        org_ability(1, false, false, 1, vec![]),
                        org_ability(1, true, false, 1, vec![]),
                        org_ability(1, false, true, 1, vec![]),
                    ],
                    passives: vec![PassiveType::NightImmunity],
                    leadership: Some(LeadershipConfig {
                        transfer_policies: LeadershipTransferPolicies { on_death: false, by_vote: false },
                    }),
                },
            ),
            (
                OrganizationName::Mafia,
                OrgConfig {
                    abilities: vec![org_ability(1, false, false, 2, vec![Role::Mafioso])],
                    passives: vec![],
                    leadership: None,
                },
            ),
        ],
        actor_pools: vec![ActorPoolConfig { name: 0, base_charges: 3, base_reset_time: 1 }],
        defaults: Defaults { universal_abilities: vec![], pseudocide_duration: 10, org_vote_time: 5 },
    }
}

fn run(eng: &mut Engine, timestamp: u64, actor: ActionActor, payload: Action) -> Result<(ActionResponse, ActionContext), ActionError> {
    eng.execute(ActionRequest { actor, timestamp, payload })
}

fn add_player(eng: &mut Engine, timestamp: u64, role: Role, name: &str) -> ID {
    let (response, _) = run(
        eng,
        timestamp,
        ActionActor::System,
        Action::AddPlayer(AddPlayer { true_name: name.to_string(), starting_role: role }),
    )
    .unwrap();
    match response {
        ActionResponse::AddPlayer(data) => data.id,
        _ => panic!("unexpected response"),
    }
}

fn quick_ability(eng: &mut Engine, timestamp: u64, give: CreateAndGiveAbility) -> ID {
    let (response, _) = run(eng, timestamp, ActionActor::System, Action::CreateAndGiveAbility(give)).unwrap();
    match response {
        ActionResponse::CreateAndGiveAbility(data) => data.id,
        _ => panic!("unexpected response"),
    }
}

fn gun_for(eng: &mut Engine, owner: ID, variant: u8, transferrable: bool, volatile: bool) -> ID {
    quick_ability(
        eng,
        0,
        CreateAndGiveAbility { actor_id: owner, ability_name: AbilityName::Gun, variant, transferrable, volatile },
    )
}

fn use_ability(eng: &mut Engine, timestamp: u64, user: ID, ability_id: ID, args: AbilityBehaviour) -> Result<(ActionResponse, ActionContext), ActionError> {
    run(eng, timestamp, ActionActor::Player(user), Action::UseAbility(UseAbility { ability_id, ability_args: args }))
}

fn shoot(eng: &mut Engine, user: ID, ability_id: ID, target: ID) -> Result<(ActionResponse, ActionContext), ActionError> {
    use_ability(eng, 0, user, ability_id, AbilityBehaviour::Gun(Gun { target_id: target }))
}

fn quick_revive(eng: &mut Engine, timestamp: u64, target: ID) {
    run(eng, timestamp, ActionActor::System, Action::Revive(Revive { target_id: target })).unwrap();
}

fn add_state(eng: &mut Engine, timestamp: u64, target: ID, state: State) {
    run(eng, timestamp, ActionActor::System, Action::AddState(AddState { actor_id: target, state })).unwrap();
}

fn remove_state(eng: &mut Engine, timestamp: u64, target: ID, state: State) {
    run(eng, timestamp, ActionActor::System, Action::RemoveState(RemoveState { actor_id: target, state })).unwrap();
}

fn add_pool(eng: &mut Engine, charges: u32) -> ID {
    let (response, _) = run(
        eng,
        0,
        ActionActor::System,
        Action::AddChargePool(AddChargePool { base_charges: charges, base_reset_time: 1 }),
    )
    .unwrap();
    match response {
        ActionResponse::AddChargePool(data) => data.id,
        _ => panic!("unexpected response"),
    }
}

fn link(eng: &mut Engine, ability_id: ID, pool_id: ID, link_type: PoolLinkType, weight: u32, volatile: bool) {
    run(
        eng,
        0,
        ActionActor::System,
        Action::AddLink(AddLink { ability_id, pool_id, link_type, weight, volatile }),
    )
    .unwrap();
}

fn usage_limit(eng: &Engine, ability_id: ID) -> Option<u32> {
    mafia_engine::helpers::get_ability(eng, ability_id).unwrap().get_usage_limit(eng).unwrap()
}

fn charges(eng: &Engine, pool_id: ID) -> u32 {
    mafia_engine::helpers::get_charge_pool(eng, pool_id).unwrap().charges
}

fn new_engine() -> Engine {
    Engine::new(test_config())
}

use mafia_engine::ability::pseudocide::Pseudocide;
use mafia_engine::action::ability::give_ability::GiveAbility;
use mafia_engine::helpers::{get_ability, get_actor, get_charge_pool};

#[test]
fn basic_usage() {
    let mut eng = new_engine();
    let p1 = add_player(&mut eng, 0, Role::Civilian, "p1");
    let ability_id = gun_for(&mut eng, p1, 0, false, false);

    let initial_limit = usage_limit(&eng, ability_id).unwrap();
    assert!(initial_limit > 0);

    shoot(&mut eng, p1, ability_id, p1).unwrap();

    let p1_actor = get_actor(&eng, p1).unwrap();
    assert!(p1_actor.has_state(State::Dead));

    let new_limit = usage_limit(&eng, ability_id).unwrap();
    assert!(new_limit == initial_limit - 1);
}

#[test]
fn use_unowned() {
    let mut eng = new_engine();
    let p1 = add_player(&mut eng, 0, Role::Civilian, "p1");
    let p2 = add_player(&mut eng, 0, Role::Civilian, "p2");
    let ability_id = gun_for(&mut eng, p1, 0, false, false);

    assert!(shoot(&mut eng, p2, ability_id, p1).is_err());
}

#[test]
fn usage_exhaustion() {
    let mut eng = new_engine();
    let p1 = add_player(&mut eng, 0, Role::Civilian, "p1");
    let ability_id = gun_for(&mut eng, p1, 0, false, false);

    let initial_limit = usage_limit(&eng, ability_id).unwrap();
    for _ in 0..initial_limit {
        shoot(&mut eng, p1, ability_id, p1).unwrap();
        quick_revive(&mut eng, 0, p1);
    }

    assert!(usage_limit(&eng, ability_id).unwrap() == 0);
    assert!(shoot(&mut eng, p1, ability_id, p1).is_err());
}

#[test]
fn usage_arg_mismatch() {
    let mut eng = new_engine();
    let p1 = add_player(&mut eng, 0, Role::Civilian, "p1");
    let ability_id = gun_for(&mut eng, p1, 0, false, false);

    let initial_limit = usage_limit(&eng, ability_id).unwrap();
    assert!(
        use_ability(
            &mut eng,
            0,
            p1,
            ability_id,
            AbilityBehaviour::Pseudocide(Pseudocide {
                target_id: p1,
                true_name: "john porkington".into(),
                death_message: "hlep".into(),
                role: Role::Civilian,
                notebook_transferred: false,
                ability_transferred: false,
            })
        )
        .is_err()
    );

    let limit = usage_limit(&eng, ability_id).unwrap();
    assert!(limit == initial_limit);
}

// verify infinite usage behaviour
#[test]
fn no_links() {
    let mut eng = new_engine();
    let p1 = add_player(&mut eng, 0, Role::Civilian, "p1");
    let ability_id = gun_for(&mut eng, p1, 1, false, false);

    assert_eq!(usage_limit(&eng, ability_id), None);
    for _ in 0..10 {
        shoot(&mut eng, p1, ability_id, p1).unwrap();
        assert!(get_actor(&eng, p1).unwrap().has_state(State::Dead));
        quick_revive(&mut eng, 0, p1);
    }
    assert_eq!(usage_limit(&eng, ability_id), None);
}

// test multiple abilities interacting with the same global pool
// use the charges for one ability and see if it carries over to the other
// create new abilities after running out of charges as well
#[test]
fn global_links() {
    let mut eng = new_engine();
    let p1 = add_player(&mut eng, 0, Role::Civilian, "p1");
    let p2 = add_player(&mut eng, 0, Role::Civilian, "p2");
    let pool = add_pool(&mut eng, 3);
    let a1 = gun_for(&mut eng, p1, 1, false, false);
    let a2 = gun_for(&mut eng, p2, 1, false, false);
    link(&mut eng, a1, pool, PoolLinkType::Limit, 1, false);
    link(&mut eng, a2, pool, PoolLinkType::Limit, 1, false);
    assert_eq!(usage_limit(&eng, a2), Some(3));

    shoot(&mut eng, p1, a1, p1).unwrap();
    quick_revive(&mut eng, 0, p1);
    assert_eq!(charges(&eng, pool), 2);
    assert_eq!(usage_limit(&eng, a2), Some(2));

    shoot(&mut eng, p2, a2, p2).unwrap();
    quick_revive(&mut eng, 0, p2);
    shoot(&mut eng, p1, a1, p1).unwrap();
    quick_revive(&mut eng, 0, p1);
    assert_eq!(charges(&eng, pool), 0);
    assert_eq!(shoot(&mut eng, p2, a2, p2).unwrap_err(), ActionError::AbilityNotEnoughCharges);

    let a3 = gun_for(&mut eng, p2, 1, false, false);
    link(&mut eng, a3, pool, PoolLinkType::Limit, 1, false);
    assert_eq!(usage_limit(&eng, a3), Some(0));
    assert_eq!(shoot(&mut eng, p2, a3, p2).unwrap_err(), ActionError::AbilityNotEnoughCharges);
}

// test multiple abilities interacting with the same actor pool
// use the charges for one ability and see if it carries over to another
#[test]
fn actor_links() {
    let mut eng = new_engine();
    let p1 = add_player(&mut eng, 0, Role::Civilian, "p1");
    let a1 = gun_for(&mut eng, p1, 0, false, false);
    let a2 = gun_for(&mut eng, p1, 0, false, false);
    assert_eq!(usage_limit(&eng, a1), Some(3));
    assert_eq!(usage_limit(&eng, a2), Some(3));

    shoot(&mut eng, p1, a1, p1).unwrap();
    quick_revive(&mut eng, 0, p1);
    assert_eq!(usage_limit(&eng, a1), Some(2));
    assert_eq!(usage_limit(&eng, a2), Some(2));

    let p2 = add_player(&mut eng, 0, Role::Civilian, "p2");
    let a3 = gun_for(&mut eng, p2, 0, false, false);
    assert_eq!(usage_limit(&eng, a3), Some(3));
}

#[test]
fn local_links() {
    let mut eng = new_engine();
    let p1 = add_player(&mut eng, 0, Role::Civilian, "p1");
    let p2 = add_player(&mut eng, 0, Role::Civilian, "p2");
    let a1 = gun_for(&mut eng, p1, 1, true, false);
    let local = add_pool(&mut eng, 2);
    link(&mut eng, a1, local, PoolLinkType::Limit, 1, false);

    shoot(&mut eng, p1, a1, p2).unwrap();
    assert_eq!(usage_limit(&eng, a1), Some(1));

    run(&mut eng, 0, ActionActor::System, Action::GiveAbility(GiveAbility { ability_id: a1, actor_id: p2, volatile: false }))
        .unwrap();
    quick_revive(&mut eng, 0, p2);
    assert_eq!(get_ability(&eng, a1).unwrap().ownership_struct.owner, Some(p2));
    assert_eq!(usage_limit(&eng, a1), Some(1));
    shoot(&mut eng, p2, a1, p1).unwrap();
    assert_eq!(usage_limit(&eng, a1), Some(0));
}

#[test]
fn local_link_volatility() {
    let mut eng = new_engine();
    let p1 = add_player(&mut eng, 0, Role::Civilian, "p1");
    let p2 = add_player(&mut eng, 0, Role::Civilian, "p2");
    let a1 = gun_for(&mut eng, p1, 1, true, false);
    let local = add_pool(&mut eng, 2);
    link(&mut eng, a1, local, PoolLinkType::Limit, 1, true);
    assert_eq!(usage_limit(&eng, a1), Some(2));

    run(&mut eng, 0, ActionActor::System, Action::GiveAbility(GiveAbility { ability_id: a1, actor_id: p2, volatile: false }))
        .unwrap();
    assert_eq!(usage_limit(&eng, a1), None);
    assert!(get_ability(&eng, a1).unwrap().link_dests(false).is_empty());
    assert!(get_charge_pool(&eng, local).is_err());
}

#[test]
fn limit_link() {
    let mut eng = new_engine();
    let p1 = add_player(&mut eng, 0, Role::Civilian, "p1");
    let a1 = gun_for(&mut eng, p1, 1, false, false);
    let pool = add_pool(&mut eng, 1);
    link(&mut eng, a1, pool, PoolLinkType::Limit, 1, false);

    shoot(&mut eng, p1, a1, p1).unwrap();
    quick_revive(&mut eng, 0, p1);
    assert_eq!(charges(&eng, pool), 0);
    assert_eq!(shoot(&mut eng, p1, a1, p1).unwrap_err(), ActionError::AbilityNotEnoughCharges);
    assert!(!get_actor(&eng, p1).unwrap().has_state(State::Dead));
}

#[test]
fn pool_link() {
    let mut eng = new_engine();
    let p1 = add_player(&mut eng, 0, Role::Civilian, "p1");
    let a1 = gun_for(&mut eng, p1, 1, false, false);
    let small = add_pool(&mut eng, 1);
    let big = add_pool(&mut eng, 2);
    link(&mut eng, a1, small, PoolLinkType::Pool, 1, false);
    link(&mut eng, a1, big, PoolLinkType::Pool, 1, false);
    assert_eq!(usage_limit(&eng, a1), Some(2));

    shoot(&mut eng, p1, a1, p1).unwrap();
    quick_revive(&mut eng, 0, p1);
    assert_eq!((charges(&eng, small), charges(&eng, big)), (0, 1));

    shoot(&mut eng, p1, a1, p1).unwrap();
    quick_revive(&mut eng, 0, p1);
    assert_eq!((charges(&eng, small), charges(&eng, big)), (0, 0));

    assert_eq!(shoot(&mut eng, p1, a1, p1).unwrap_err(), ActionError::AbilityNotEnoughCharges);
}

#[test]
fn pool_and_limit_links() {
    let mut eng = new_engine();
    let p1 = add_player(&mut eng, 0, Role::Civilian, "p1");
    let a1 = gun_for(&mut eng, p1, 1, false, false);
    let limit = add_pool(&mut eng, 1);
    let pool = add_pool(&mut eng, 5);
    link(&mut eng, a1, limit, PoolLinkType::Limit, 1, false);
    link(&mut eng, a1, pool, PoolLinkType::Pool, 1, false);
    assert_eq!(usage_limit(&eng, a1), Some(1));

    shoot(&mut eng, p1, a1, p1).unwrap();
    quick_revive(&mut eng, 0, p1);
    assert_eq!((charges(&eng, limit), charges(&eng, pool)), (0, 4));
    assert_eq!(shoot(&mut eng, p1, a1, p1).unwrap_err(), ActionError::AbilityNotEnoughCharges);

    let a2 = gun_for(&mut eng, p1, 1, false, false);
    let full = add_pool(&mut eng, 3);
    let empty = add_pool(&mut eng, 0);
    link(&mut eng, a2, full, PoolLinkType::Limit, 1, false);
    link(&mut eng, a2, empty, PoolLinkType::Pool, 1, false);
    assert_eq!(usage_limit(&eng, a2), Some(0));
    assert_eq!(shoot(&mut eng, p1, a2, p1).unwrap_err(), ActionError::AbilityNotEnoughCharges);
    assert_eq!(charges(&eng, full), 3);
}

// see if multiple abilities linking to the same pool with different weights is properly handled
#[test]
fn link_weights() {
    let mut eng = new_engine();
    let p1 = add_player(&mut eng, 0, Role::Civilian, "p1");
    let light = gun_for(&mut eng, p1, 1, false, false);
    let heavy = gun_for(&mut eng, p1, 1, false, false);
    let pool = add_pool(&mut eng, 5);
    link(&mut eng, light, pool, PoolLinkType::Limit, 1, false);
    link(&mut eng, heavy, pool, PoolLinkType::Limit, 2, false);
    assert_eq!(usage_limit(&eng, light), Some(5));
    assert_eq!(usage_limit(&eng, heavy), Some(2));

    shoot(&mut eng, p1, heavy, p1).unwrap();
    quick_revive(&mut eng, 0, p1);
    assert_eq!(charges(&eng, pool), 3);
    assert_eq!(usage_limit(&eng, light), Some(3));
    assert_eq!(usage_limit(&eng, heavy), Some(1));

    shoot(&mut eng, p1, heavy, p1).unwrap();
    quick_revive(&mut eng, 0, p1);
    assert_eq!(charges(&eng, pool), 1);
    assert_eq!(shoot(&mut eng, p1, heavy, p1).unwrap_err(), ActionError::AbilityNotEnoughCharges);
    shoot(&mut eng, p1, light, p1).unwrap();
    assert_eq!(charges(&eng, pool), 0);
}

#[test]
fn dead_player_cannot_use_presence_ability() {
    let mut eng = new_engine();
    let p1 = add_player(&mut eng, 0, Role::Civilian, "p1");
    let p2 = add_player(&mut eng, 0, Role::Civilian, "p2");
    let needs_presence = gun_for(&mut eng, p1, 0, false, false);
    let anywhere = gun_for(&mut eng, p1, 2, false, false);
    add_state(&mut eng, 0, p1, State::Dead);

    assert_eq!(shoot(&mut eng, p1, needs_presence, p2).unwrap_err(), ActionError::AbilityCategoryBlocked);
    assert_eq!(usage_limit(&eng, needs_presence), Some(3));
    shoot(&mut eng, p1, anywhere, p2).unwrap();
    assert!(get_actor(&eng, p2).unwrap().has_state(State::Dead));
}

#[test]
fn use_ability_errors() {
    let mut eng = new_engine();
    let p1 = add_player(&mut eng, 0, Role::Civilian, "p1");
    let a1 = gun_for(&mut eng, p1, 1, false, false);
    let args = AbilityBehaviour::Gun(Gun { target_id: p1 });
    assert_eq!(
        run(&mut eng, 0, ActionActor::System, Action::UseAbility(UseAbility { ability_id: a1, ability_args: args.clone() }))
            .unwrap_err(),
        ActionError::RequiresPlayerOrOrg
    );
    assert_eq!(use_ability(&mut eng, 0, p1, 99, args.clone()).unwrap_err(), ActionError::AbilityNotFound);
    assert_eq!(use_ability(&mut eng, 0, 77, a1, args.clone()).unwrap_err(), ActionError::ActorNotFound);
}

#[test]
fn refused_request_leaves_engine_unchanged() {
    let mut eng = new_engine();
    let p1 = add_player(&mut eng, 0, Role::Civilian, "p1");
    let a1 = gun_for(&mut eng, p1, 1, false, false);
    let limit = add_pool(&mut eng, 2);
    let empty = add_pool(&mut eng, 0);
    link(&mut eng, a1, limit, PoolLinkType::Limit, 1, false);
    link(&mut eng, a1, empty, PoolLinkType::Pool, 1, false);

    assert!(shoot(&mut eng, p1, a1, p1).is_err());
    assert_eq!(charges(&eng, limit), 2);
    assert!(!get_actor(&eng, p1).unwrap().has_state(State::Dead));
}

#[test]
fn basic_transfer() {
    let mut eng = new_engine();
    let p1 = add_player(&mut eng, 0, Role::Civilian, "p1");
    let p2 = add_player(&mut eng, 0, Role::Civilian, "p2");

    let a1 = quick_ability(
        &mut eng,
        0,
        CreateAndGiveAbility { actor_id: p1, ability_name: AbilityName::Gun, variant: 0, transferrable: false, volatile: false },
    );
    let a2 = quick_ability(
        &mut eng,
        0,
        CreateAndGiveAbility { actor_id: p2, ability_name: AbilityName::Gun, variant: 0, transferrable: true, volatile: false },
    );

    assert!(get_ability(&eng, a1).unwrap().ownership_struct.owner == Some(p1));
    assert!(get_ability(&eng, a2).unwrap().ownership_struct.owner == Some(p2));

    use_ability(&mut eng, 0, p1, a1, AbilityBehaviour::Gun(Gun { target_id: p2 })).unwrap();

    assert!(get_ability(&eng, a1).unwrap().ownership_struct.owner == Some(p1));
    assert!(get_ability(&eng, a2).unwrap().ownership_struct.owner == Some(p1));

    let p1_data = get_actor(&eng, p1).unwrap();
    assert!(p1_data.abilities.contains(&a1));
    assert!(p1_data.abilities.contains(&a2));
    let p2_data = get_actor(&eng, p2).unwrap();
    assert!(!p2_data.abilities.contains(&a1));
    assert!(!p2_data.abilities.contains(&a2));
}

#[test]
fn transfer_local_state_persistence() {
    let mut eng = new_engine();
    let p1 = add_player(&mut eng, 0, Role::Civilian, "p1");
    let p2 = add_player(&mut eng, 0, Role::Civilian, "p2");

    let a1 = quick_ability(
        &mut eng,
        0,
        CreateAndGiveAbility { actor_id: p1, ability_name: AbilityName::Gun, variant: 0, transferrable: false, volatile: false },
    );
    let a2 = quick_ability(
        &mut eng,
        0,
        CreateAndGiveAbility { actor_id: p2, ability_name: AbilityName::Gun, variant: 0, transferrable: true, volatile: false },
    );

    let initial_limit = usage_limit(&eng, a2).unwrap();

    use_ability(&mut eng, 0, p2, a2, AbilityBehaviour::Gun(Gun { target_id: p2 })).unwrap();
    quick_revive(&mut eng, 0, p2);

    let _ = use_ability(&mut eng, 0, p1, a1, AbilityBehaviour::Gun(Gun { target_id: p2 }));

    let limit = usage_limit(&eng, a2).unwrap();
    assert!(limit == initial_limit - 1);
}

#[test]
fn non_transferrable_ability_stays_with_the_dead() {
    let mut eng = new_engine();
    let p1 = add_player(&mut eng, 0, Role::Civilian, "p1");
    let p2 = add_player(&mut eng, 0, Role::Civilian, "p2");
    let a1 = gun_for(&mut eng, p1, 1, false, false);
    let a2 = gun_for(&mut eng, p2, 1, false, false);
    shoot(&mut eng, p1, a1, p2).unwrap();
    assert_eq!(get_ability(&eng, a2).unwrap().ownership_struct.owner, Some(p2));
    assert!(get_actor(&eng, p2).unwrap().abilities.contains(&a2));
    assert!(!get_actor(&eng, p1).unwrap().abilities.contains(&a2));
}

#[test]
fn shooting_oneself_keeps_own_abilities() {
    let mut eng = new_engine();
    let p1 = add_player(&mut eng, 0, Role::Civilian, "p1");
    let a1 = gun_for(&mut eng, p1, 1, true, false);
    shoot(&mut eng, p1, a1, p1).unwrap();
    assert_eq!(get_ability(&eng, a1).unwrap().ownership_struct.owner, Some(p1));
    assert!(get_actor(&eng, p1).unwrap().abilities.contains(&a1));
}

#[test]
fn check_and_use_refuse_alike() {
    let mut eng = new_engine();
    let p1 = add_player(&mut eng, 0, Role::Civilian, "p1");
    let p2 = add_player(&mut eng, 0, Role::Civilian, "p2");
    let a1 = gun_for(&mut eng, p1, 1, false, false);
    let empty = add_pool(&mut eng, 0);
    link(&mut eng, a1, empty, PoolLinkType::Limit, 1, false);

    assert_eq!(shoot(&mut eng, p1, a1, p2).unwrap_err(), ActionError::AbilityNotEnoughCharges);
    let mut use_ = UseAbility { ability_id: a1, ability_args: AbilityBehaviour::Gun(Gun { target_id: p2 }) };
    let mut ctx = ActionContext::new();
    let checked = use_.handle(&mut eng, &mut ctx, &ActionActor::Player(p1), 0, false);
    let carried = use_.handle(&mut eng, &mut ctx, &ActionActor::Player(p1), 0, true);
    assert_eq!(checked.unwrap_err(), ActionError::AbilityNotEnoughCharges);
    assert_eq!(carried.unwrap_err(), ActionError::AbilityNotEnoughCharges);
    assert!(!get_actor(&eng, p2).unwrap().has_state(State::Dead));
}
