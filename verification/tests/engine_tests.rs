#![allow(dead_code, unused_imports)]

use mafia_engine::ability::gun::Gun;
use mafia_engine::ability::AbilityBehaviour;
use mafia_engine::action::ability::add_link::AddLink;
use mafia_engine::action::ability::create_and_give_ability::CreateAndGiveAbility;
use mafia_engine::action::ability::use_ability::UseAbility;
use mafia_engine::action::actor::add_state::AddState;
use mafia_engine::action::actor::player::revive::Revive;
use mafia_engine::action::actor::remove_state::RemoveState;
use mafia_engine::action::add_player::AddPlayer;
use mafia_engine::action::chargepool::add_charge_pool::AddChargePool;
use mafia_engine::action::{Action, ActionActor, ActionContext, ActionError, ActionRequest, ActionResponse};
use mafia_engine::actor::{
    ActorLinkType, LeadershipTransferPolicies, Modifier, OrgAbilityPolicies, State,
};
use mafia_engine::chargepool::PoolLinkType;
use mafia_engine::common::ID;
use mafia_engine::config::{
    AbilityConfig, AbilityIdentifier, AbilityName, ActorPoolConfig, Config, ConfigPoolLink,
    ConfigPoolLinkDetails, Defaults, LeadershipConfig, OrgAbilityConfig, OrgConfig,
    OrganizationName, Role, RoleActorLink, RoleConfig,
};
use mafia_engine::engine::Engine;
use mafia_engine::passive::PassiveType;

fn gun_kind(variant: u8) -> AbilityIdentifier {
    AbilityIdentifier { name: AbilityName::Gun, variant }
}

fn org_ability(variant: u8, leader: bool, vote: bool, members: u32, roles: Vec<Role>) -> OrgAbilityConfig {
    OrgAbilityConfig {
        identifier: gun_kind(variant),
        require_roles: roles,
        require_members: members,
        usage_policies: OrgAbilityPolicies { require_leader: leader, require_vote: vote },
    }
}

/// A small game: guns of variant 0 draw one charge a use from the actor pool 0 (three
/// charges); guns of variant 1 have no links; the dead can neither act nor be contacted.
fn test_config() -> Config {
    let empty_role = RoleConfig { abilities: vec![], passives: vec![], notebooks: vec![], actor_links: vec![] };
    let mafioso = RoleConfig {
        abilities: vec![],
        passives: vec![],
        notebooks: vec![],
        actor_links: vec![RoleActorLink { role: Role::Mafioso, link_type: ActorLinkType::Knows }],
    };
    Config {
        abilities: vec![
            (
                gun_kind(0),
                AbilityConfig {
                    require_presence: true,
                    default_links: vec![ConfigPoolLink {
                        details: ConfigPoolLinkDetails::Actor(0),
                        link_type: PoolLinkType::Limit,
                        weight: 1,
                    }],
                },
            ),
            (gun_kind(1), AbilityConfig { require_presence: true, default_links: vec![] }),
            (gun_kind(2), AbilityConfig { require_presence: false, default_links: vec![] }),
            (
                AbilityIdentifier { name: AbilityName::Pseudocide, variant: 0 },
                AbilityConfig { require_presence: true, default_links: vec![] },
            ),
        ],
        roles: vec![
            (Role::Civilian, empty_role.clone()),
            (Role::Detective, empty_role),
            (Role::Mafioso, mafioso),
        ],
        state_modifiers: vec![(State::Dead, vec![Modifier::NoPresence, Modifier::NoContact])],
        org_config: vec![
            (
                OrganizationName::NULL,
                OrgConfig {
                    abilities: vec![
                        org_ability(1, false, false, 1, vec![]),
                        org_ability(1, true, false, 1, vec![]),
                        org_ability(1, false, true, 1, vec![]),
                    ],
                    passives: vec![PassiveType::NightImmunity],
                    leadership: Some(LeadershipConfig {
                        transfer_policies: LeadershipTransferPolicies { on_death: false, by_vote: false },
                    }),
                },
            ),
            (
                OrganizationName::Mafia,
                OrgConfig {
                    abilities: vec![org_ability(1, false, false, 2, vec![Role::Mafioso])],
                    passives: vec![],
                    leadership: None,
                },
            ),
        ],
        actor_pools: vec![ActorPoolConfig { name: 0, base_charges: 3, base_reset_time: 1 }],
        defaults: Defaults { universal_abilities: vec![], pseudocide_duration: 10, org_vote_time: 5 },
    }
}

fn run(eng: &mut Engine, timestamp: u64, actor: ActionActor, payload: Action) -> Result<(ActionResponse, ActionContext), ActionError> {
    eng.execute(ActionRequest { actor, timestamp, payload })
}

fn add_player(eng: &mut Engine, timestamp: u64, role: Role, name: &str) -> ID {
    let (response, _) = run(
        eng,
        timestamp,
        ActionActor::System,
        Action::AddPlayer(AddPlayer { true_name: name.to_string(), starting_role: role }),
    )
    .unwrap();
    match response {
        ActionResponse::AddPlayer(data) => data.id,
        _ => panic!("unexpected response"),
    }
}

fn quick_ability(eng: &mut Engine, timestamp: u64, give: CreateAndGiveAbility) -> ID {
    let (response, _) = run(eng, timestamp, ActionActor::System, Action::CreateAndGiveAbility(give)).unwrap();
    match response {
        ActionResponse::CreateAndGiveAbility(data) => data.id,
        _ => panic!("unexpected response"),
    }
}

fn gun_for(eng: &mut Engine, owner: ID, variant: u8, transferrable: bool, volatile: bool) -> ID {
    quick_ability(
        eng,
        0,
        CreateAndGiveAbility { actor_id: owner, ability_name: AbilityName::Gun, variant, transferrable, volatile },
    )
}

fn use_ability(eng: &mut Engine, timestamp: u64, user: ID, ability_id: ID, args: AbilityBehaviour) -> Result<(ActionResponse, ActionContext), ActionError> {
    run(eng, timestamp, ActionActor::Player(user), Action::UseAbility(UseAbility { ability_id, ability_args: args }))
}

fn shoot(eng: &mut Engine, user: ID, ability_id: ID, target: ID) -> Result<(ActionResponse, ActionContext), ActionError> {
    use_ability(eng, 0, user, ability_id, AbilityBehaviour::Gun(Gun { target_id: target }))
}

fn quick_revive(eng: &mut Engine, timestamp: u64, target: ID) {
    run(eng, timestamp, ActionActor::System, Action::Revive(Revive { target_id: target })).unwrap();
}

fn add_state(eng: &mut Engine, timestamp: u64, target: ID, state: State) {
    run(eng, timestamp, ActionActor::System, Action::AddState(AddState { actor_id: target, state })).unwrap();
}

fn remove_state(eng: &mut Engine, timestamp: u64, target: ID, state: State) {
    run(eng, timestamp, ActionActor::System, Action::RemoveState(RemoveState { actor_id: target, state })).unwrap();
}

fn add_pool(eng: &mut Engine, charges: u32) -> ID {
    let (response, _) = run(
        eng,
        0,
        ActionActor::System,
        Action::AddChargePool(AddChargePool { base_charges: charges, base_reset_time: 1 }),
    )
    .unwrap();
    match response {
        ActionResponse::AddChargePool(data) => data.id,
        _ => panic!("unexpected response"),
    }
}

fn link(eng: &mut Engine, ability_id: ID, pool_id: ID, link_type: PoolLinkType, weight: u32, volatile: bool) {
    run(
        eng,
        0,
        ActionActor::System,
        Action::AddLink(AddLink { ability_id, pool_id, link_type, weight, volatile }),
    )
    .unwrap();
}

fn usage_limit(eng: &Engine, ability_id: ID) -> Option<u32> {
    mafia_engine::helpers::get_ability(eng, ability_id).unwrap().get_usage_limit(eng).unwrap()
}

fn charges(eng: &Engine, pool_id: ID) -> u32 {
    mafia_engine::helpers::get_charge_pool(eng, pool_id).unwrap().charges
}

fn new_engine() -> Engine {
    Engine::new(test_config())
}

use mafia_engine::actor::Modifier as Mod;
use mafia_engine::helpers::get_actor;

#[test]
fn state_round_trip_restores_states_and_modifiers() {
    let mut eng = new_engine();
    let p1 = add_player(&mut eng, 0, Role::Civilian, "p1");
    assert!(!get_actor(&eng, p1).unwrap().has_modifier(Mod::NoContact));

    add_state(&mut eng, 0, p1, State::Dead);
    let actor = get_actor(&eng, p1).unwrap();
    assert!(actor.has_state(State::Dead));
    assert!(actor.has_modifier(Mod::NoContact));
    assert!(actor.has_modifier(Mod::NoPresence));

    remove_state(&mut eng, 0, p1, State::Dead);
    let actor = get_actor(&eng, p1).unwrap();
    assert!(actor.states.is_empty());
    assert!(!actor.has_modifier(Mod::NoContact));
    assert!(!actor.has_modifier(Mod::NoPresence));
}

#[test]
fn validation_leaves_engine_unchanged() {
    let mut eng = new_engine();
    let p1 = add_player(&mut eng, 0, Role::Civilian, "p1");
    let gun = gun_for(&mut eng, p1, 0, false, false);

    let mut req = ActionRequest {
        actor: ActionActor::Player(p1),
        timestamp: 0,
        payload: Action::UseAbility(UseAbility { ability_id: gun, ability_args: AbilityBehaviour::Gun(Gun { target_id: p1 }) }),
    };
    let (answer, _) = eng.validate(&mut req);
    assert!(answer.is_ok());
    assert!(!get_actor(&eng, p1).unwrap().has_state(State::Dead));
    assert_eq!(usage_limit(&eng, gun), Some(3));

    let mut new_player = ActionRequest {
        actor: ActionActor::System,
        timestamp: 0,
        payload: Action::AddPlayer(AddPlayer { true_name: "p2".to_string(), starting_role: Role::Civilian }),
    };
    let (answer, _) = eng.validate(&mut new_player);
    match answer.unwrap() {
        ActionResponse::AddPlayer(data) => assert_eq!(data.id, 0),
        _ => panic!("unexpected response"),
    }
    assert!(eng.world.get_player_id_by_name(&"p2".to_string()).is_none());
}

#[test]
fn refused_request_gets_its_refusal() {
    let mut eng = new_engine();
    let p1 = add_player(&mut eng, 0, Role::Civilian, "p1");
    let answer = run(&mut eng, 0, ActionActor::Player(p1), Action::AddPlayer(AddPlayer { true_name: "p2".to_string(), starting_role: Role::Civilian }));
    assert_eq!(answer.unwrap_err(), ActionError::RequiresSystem);
    assert!(eng.world.get_player_id_by_name(&"p2".to_string()).is_none());
    assert_eq!(eng.world.get_player_id_by_name(&"p1".to_string()), Some(p1));
}
