#![allow(dead_code, unused_imports)]

use mafia_engine::ability::gun::Gun;
use mafia_engine::ability::AbilityBehaviour;
use mafia_engine::action::ability::add_link::AddLink;
use mafia_engine::action::ability::create_and_give_ability::CreateAndGiveAbility;
use mafia_engine::action::ability::use_ability::UseAbility;
use mafia_engine::action::actor::add_state::AddState;
use mafia_engine::action::actor::player::revive::Revive;
use mafia_engine::action::actor::remove_state::RemoveState;
use mafia_engine::action::add_player::AddPlayer;
use mafia_engine::action::chargepool::add_charge_pool::AddChargePool;
use mafia_engine::action::{Action, ActionActor, ActionContext, ActionError, ActionRequest, ActionResponse};
use mafia_engine::actor::{
    ActorLinkType, LeadershipTransferPolicies, Modifier, OrgAbilityPolicies, State,
};
use mafia_engine::chargepool::PoolLinkType;
use mafia_engine::common::ID;
use mafia_engine::config::{
    AbilityConfig, AbilityIdentifier, AbilityName, ActorPoolConfig, Config, ConfigPoolLink,
    ConfigPoolLinkDetails, Defaults, LeadershipConfig, OrgAbilityConfig, OrgConfig,
    OrganizationName, Role, RoleActorLink, RoleConfig,
};
use mafia_engine::engine::Engine;
use mafia_engine::passive::PassiveType;

fn gun_kind(variant: u8) -> AbilityIdentifier {
    AbilityIdentifier { name: AbilityName::Gun, variant }
}

fn org_ability(variant: u8, leader: bool, vote: bool, members: u32, roles: Vec<Role>) -> OrgAbilityConfig {
    OrgAbilityConfig {
        identifier: gun_kind(variant),
        require_roles: roles,
        require_members: members,
        usage_policies: OrgAbilityPolicies { require_leader: leader, require_vote: vote },
    }
}

/// A small game: guns of variant 0 draw one charge a use from the actor pool 0 (three
/// charges); guns of variant 1 have no links; the dead can neither act nor be contacted.
fn test_config() -> Config {
    let empty_role = RoleConfig { abilities: vec![], passives: vec![], notebooks: vec![], actor_links: vec![] };
    let mafioso = RoleConfig {
        abilities: vec![],
        passives: vec![],
        notebooks: vec![],
        actor_links: vec![RoleActorLink { role: Role::Mafioso, link_type: ActorLinkType::Knows }],
    };
    Config {
        abilities: vec![
            (
                gun_kind(0),
                AbilityConfig {
                    require_presence: true,
                    default_links: vec![ConfigPoolLink {
                        details: ConfigPoolLinkDetails::Actor(0),
                        link_type: PoolLinkType::Limit,
                        weight: 1,
                    }],
                },
            ),
            (gun_kind(1), AbilityConfig { require_presence: true, default_links: vec![] }),
            (gun_kind(2), AbilityConfig { require_presence: false, default_links: vec![] }),
            (
                AbilityIdentifier { name: AbilityName::Pseudocide, variant: 0 },
                AbilityConfig { require_presence: true, default_links: vec![] },
            ),
        ],
        roles: vec![
            (Role::Civilian, empty_role.clone()),
            (Role::Detective, empty_role),
            (Role::Mafioso, mafioso),
        ],
        state_modifiers: vec![(State::Dead, vec![Modifier::NoPresence, Modifier::NoContact])],
        org_config: vec![
            (
                OrganizationName::NULL,
                OrgConfig {
                    abilities: vec![
                        org_ability(1, false, false, 1, vec![]),
                        org_ability(1, true, false, 1, vec![]),
                        org_ability(1, false, true, 1, vec![]),
                    ],
                    passives: vec![PassiveType::NightImmunity],
                    leadership: Some(LeadershipConfig {
                        transfer_policies: LeadershipTransferPolicies { on_death: false, by_vote: false },
                    }),
                },
            ),
            (
                OrganizationName::Mafia,
                OrgConfig {
                    abilities: vec![org_ability(1, false, false, 2, vec![Role::Mafioso])],
                    passives: vec![],
                    leadership: None,
                },
            ),
        ],
        actor_pools: vec![ActorPoolConfig { name: 0, base_charges: 3, base_reset_time: 1 }],
        defaults: Defaults { universal_abilities: vec![], pseudocide_duration: 10, org_vote_time: 5 },
    }
}

fn run(eng: &mut Engine, timestamp: u64, actor: ActionActor, payload: Action) -> Result<(ActionResponse, ActionContext), ActionError> {
    eng.execute(ActionRequest { actor, timestamp, payload })
}

fn add_player(eng: &mut Engine, timestamp: u64, role: Role, name: &str) -> ID {
    let (response, _) = run(
        eng,
        timestamp,
        ActionActor::System,
        Action::AddPlayer(AddPlayer { true_name: name.to_string(), starting_role: role }),
    )
    .unwrap();
    match response {
        ActionResponse::AddPlayer(data) => data.id,
        _ => panic!("unexpected response"),
    }
}

fn quick_ability(eng: &mut Engine, timestamp: u64, give: CreateAndGiveAbility) -> ID {
    let (response, _) = run(eng, timestamp, ActionActor::System, Action::CreateAndGiveAbility(give)).unwrap();
    match response {
        ActionResponse::CreateAndGiveAbility(data) => data.id,
        _ => panic!("unexpected response"),
    }
}

fn gun_for(eng: &mut Engine, owner: ID, variant: u8, transferrable: bool, volatile: bool) -> ID {
    quick_ability(
        eng,
        0,
        CreateAndGiveAbility { actor_id: owner, ability_name: AbilityName::Gun, variant, transferrable, volatile },
    )
}

fn use_ability(eng: &mut Engine, timestamp: u64, user: ID, ability_id: ID, args: AbilityBehaviour) -> Result<(ActionResponse, ActionContext), ActionError> {
    run(eng, timestamp, ActionActor::Player(user), Action::UseAbility(UseAbility { ability_id, ability_args: args }))
}

fn shoot(eng: &mut Engine, user: ID, ability_id: ID, target: ID) -> Result<(ActionResponse, ActionContext), ActionError> {
    use_ability(eng, 0, user, ability_id, AbilityBehaviour::Gun(Gun { target_id: target }))
}

fn quick_revive(eng: &mut Engine, timestamp: u64, target: ID) {
    run(eng, timestamp, ActionActor::System, Action::Revive(Revive { target_id: target })).unwrap();
}

fn add_state(eng: &mut Engine, timestamp: u64, target: ID, state: State) {
    run(eng, timestamp, ActionActor::System, Action::AddState(AddState { actor_id: target, state })).unwrap();
}

fn remove_state(eng: &mut Engine, timestamp: u64, target: ID, state: State) {
    run(eng, timestamp, ActionActor::System, Action::RemoveState(RemoveState { actor_id: target, state })).unwrap();
}

fn add_pool(eng: &mut Engine, charges: u32) -> ID {
    let (response, _) = run(
        eng,
        0,
        ActionActor::System,
        Action::AddChargePool(AddChargePool { base_charges: charges, base_reset_time: 1 }),
    )
    .unwrap();
    match response {
        ActionResponse::AddChargePool(data) => data.id,
        _ => panic!("unexpected response"),
    }
}

fn link(eng: &mut Engine, ability_id: ID, pool_id: ID, link_type: PoolLinkType, weight: u32, volatile: bool) {
    run(
        eng,
        0,
        ActionActor::System,
        Action::AddLink(AddLink { ability_id, pool_id, link_type, weight, volatile }),
    )
    .unwrap();
}

fn usage_limit(eng: &Engine, ability_id: ID) -> Option<u32> {
    mafia_engine::helpers::get_ability(eng, ability_id).unwrap().get_usage_limit(eng).unwrap()
}

fn charges(eng: &Engine, pool_id: ID) -> u32 {
    mafia_engine::helpers::get_charge_pool(eng, pool_id).unwrap().charges
}

fn new_engine() -> Engine {
    Engine::new(test_config())
}

use mafia_engine::ability::pseudocide::Pseudocide;
use mafia_engine::action::ability::give_ability::GiveAbility;
use mafia_engine::action::actor::player::kill::Kill;
use mafia_engine::action::actor::player::schedule_kill::ScheduleKill;
use mafia_engine::action::add_notebook::AddNotebook;
use mafia_engine::action::add_passive::AddPassive;
use mafia_engine::action::chargepool::add_charges::AddCharges;
use mafia_engine::action::comms::bug::archive_bug::ArchiveBug;
use mafia_engine::action::comms::bug::destroy_bug::DestroyBug;
use mafia_engine::action::comms::groupchat::add_to_groupchat::AddToGroupchat;
use mafia_engine::action::comms::groupchat::create_groupchat::CreateGroupchat;
use mafia_engine::action::comms::groupchat::remove_from_groupchat::RemoveFromGroupchat;
use mafia_engine::action::comms::groupchat::set_groupchat_owner::SetGroupchatOwner;
use mafia_engine::action::comms::lounge::leave_lounge::LeaveLounge;
use mafia_engine::action::comms::lounge::remove_from_lounge::RemoveFromLounge;
use mafia_engine::action::comms::channel::create_channel::CreateChannel;
use mafia_engine::action::comms::channel::send_message::SendMessage;
use mafia_engine::action::give_notebook::GiveNotebook;
use mafia_engine::action::give_passive::GivePassive;
use mafia_engine::channel::SenderDisplay;

fn err(eng: &mut Engine, actor: ActionActor, payload: Action) -> ActionError {
    run(eng, 0, actor, payload).unwrap_err()
}

fn create_gc(eng: &mut Engine) -> ID {
    let (response, _) = run(eng, 0, ActionActor::System, Action::CreateGroupchat(CreateGroupchat {})).unwrap();
    match response {
        ActionResponse::CreateGroupchat(data) => data.id,
        _ => panic!("unexpected response"),
    }
}

#[test]
fn error_ability_config_not_found() {
    let mut eng = new_engine();
    let p1 = add_player(&mut eng, 0, Role::Civilian, "p1");
    let give = CreateAndGiveAbility { actor_id: p1, ability_name: AbilityName::Gun, variant: 9, transferrable: false, volatile: false };
    assert_eq!(err(&mut eng, ActionActor::System, Action::CreateAndGiveAbility(give)), ActionError::AbilityConfigNotFound);
}

#[test]
fn error_ability_mismatch_and_not_owned() {
    let mut eng = new_engine();
    let p1 = add_player(&mut eng, 0, Role::Civilian, "p1");
    let p2 = add_player(&mut eng, 0, Role::Civilian, "p2");
    let gun = gun_for(&mut eng, p1, 1, false, false);
    let fake = AbilityBehaviour::Pseudocide(Pseudocide {
        target_id: p1,
        true_name: "x".into(),
        death_message: "y".into(),
        role: Role::Civilian,
        notebook_transferred: false,
        ability_transferred: false,
    });
    assert_eq!(use_ability(&mut eng, 0, p1, gun, fake).unwrap_err(), ActionError::AbilityMismatch);
    assert_eq!(shoot(&mut eng, p2, gun, p1).unwrap_err(), ActionError::AbilityNotOwned);
}

#[test]
fn error_bug_not_found() {
    let mut eng = new_engine();
    assert_eq!(err(&mut eng, ActionActor::System, Action::ArchiveBug(ArchiveBug { bug_id: 3 })), ActionError::BugNotFound);
    assert_eq!(err(&mut eng, ActionActor::Admin, Action::DestroyBug(DestroyBug { bug_id: 3 })), ActionError::BugNotFound);
}

#[test]
fn error_cannot_contact_and_not_the_owner() {
    let mut eng = new_engine();
    let p1 = add_player(&mut eng, 0, Role::Civilian, "p1");
    let p2 = add_player(&mut eng, 0, Role::Civilian, "p2");
    let gc = create_gc(&mut eng);
    add_state(&mut eng, 0, p2, State::Dead);
    let add = |player_id| Action::AddToGroupchat(AddToGroupchat { groupchat_id: gc, player_id, owner: false });
    assert_eq!(err(&mut eng, ActionActor::System, add(p2)), ActionError::CannotContact);
    assert_eq!(err(&mut eng, ActionActor::Player(p1), add(p1)), ActionError::NotTheOwner);
    assert_eq!(
        err(&mut eng, ActionActor::Player(p1), Action::SetGroupchatOwner(SetGroupchatOwner { groupchat_id: gc, owner: Some(p1) })),
        ActionError::NotTheOwner
    );
}

#[test]
fn error_charge_pool_not_found() {
    let mut eng = new_engine();
    let p1 = add_player(&mut eng, 0, Role::Civilian, "p1");
    let gun = gun_for(&mut eng, p1, 1, false, false);
    assert_eq!(
        err(&mut eng, ActionActor::System, Action::AddLink(AddLink { ability_id: gun, pool_id: 77, link_type: PoolLinkType::Limit, weight: 1, volatile: false })),
        ActionError::ChargePoolNotFound
    );
    assert_eq!(err(&mut eng, ActionActor::System, Action::AddCharges(AddCharges { id: 77, charges: 1 })), ActionError::ChargePoolNotFound);
}

#[test]
fn error_groupchat_and_lounge_not_found() {
    let mut eng = new_engine();
    let p1 = add_player(&mut eng, 0, Role::Civilian, "p1");
    assert_eq!(
        err(&mut eng, ActionActor::System, Action::AddToGroupchat(AddToGroupchat { groupchat_id: 5, player_id: p1, owner: false })),
        ActionError::GroupchatNotFound
    );
    assert_eq!(err(&mut eng, ActionActor::Player(p1), Action::LeaveLounge(LeaveLounge { lounge_id: 5 })), ActionError::PlayerNotInLounge);
    assert_eq!(
        err(&mut eng, ActionActor::System, Action::RemoveFromLounge(RemoveFromLounge { lounge_id: 5, player_id: p1 })),
        ActionError::PlayerNotInLounge
    );
}

#[test]
fn error_item_already_owned() {
    let mut eng = new_engine();
    let p1 = add_player(&mut eng, 0, Role::Civilian, "p1");
    let gun = gun_for(&mut eng, p1, 1, true, false);
    assert_eq!(
        err(&mut eng, ActionActor::System, Action::GiveAbility(GiveAbility { ability_id: gun, actor_id: p1, volatile: false })),
        ActionError::ItemAlreadyOwned
    );
    let (response, _) =
        run(&mut eng, 0, ActionActor::System, Action::AddPassive(AddPassive { passive_type: PassiveType::NightImmunity, transferrable: true }))
            .unwrap();
    let passive = match response {
        ActionResponse::AddPassive(data) => data.id,
        _ => panic!("unexpected response"),
    };
    run(&mut eng, 0, ActionActor::System, Action::GivePassive(GivePassive { passive_id: passive, actor_id: p1, volatile: false })).unwrap();
    assert_eq!(
        err(&mut eng, ActionActor::System, Action::GivePassive(GivePassive { passive_id: passive, actor_id: p1, volatile: false })),
        ActionError::ItemAlreadyOwned
    );
}

#[test]
fn error_name_not_unique() {
    let mut eng = new_engine();
    add_player(&mut eng, 0, Role::Civilian, "p1");
    let again = Action::AddPlayer(AddPlayer { true_name: "p1".to_string(), starting_role: Role::Mafioso });
    assert_eq!(err(&mut eng, ActionActor::System, again), ActionError::NameNotUnique);
    add_player(&mut eng, 0, Role::Civilian, "P1");
}

#[test]
fn error_not_a_channel_member() {
    let mut eng = new_engine();
    let p1 = add_player(&mut eng, 0, Role::Civilian, "p1");
    let (response, _) = run(&mut eng, 0, ActionActor::System, Action::CreateChannel(CreateChannel { loggable: false })).unwrap();
    let ch = match response {
        ActionResponse::CreateChannel(data) => data.id,
        _ => panic!("unexpected response"),
    };
    let send = Action::SendMessage(SendMessage { channel_id: ch, display: SenderDisplay::Raw(p1), content: "hi".to_string() });
    assert_eq!(err(&mut eng, ActionActor::Player(p1), send), ActionError::NotAChannelMember);
}

#[test]
fn error_notebook_and_passive_not_found() {
    let mut eng = new_engine();
    let p1 = add_player(&mut eng, 0, Role::Civilian, "p1");
    assert_eq!(
        err(&mut eng, ActionActor::System, Action::GiveNotebook(GiveNotebook { notebook_id: 9, actor_id: p1, volatile: false })),
        ActionError::NotebookNotFound
    );
    assert_eq!(
        err(&mut eng, ActionActor::System, Action::GivePassive(GivePassive { passive_id: 9, actor_id: p1, volatile: false })),
        ActionError::PassiveNotFound
    );
    run(&mut eng, 0, ActionActor::System, Action::AddNotebook(AddNotebook { fake: false })).unwrap();
}

#[test]
fn error_player_not_in_groupchat() {
    let mut eng = new_engine();
    let p1 = add_player(&mut eng, 0, Role::Civilian, "p1");
    let gc = create_gc(&mut eng);
    assert_eq!(
        err(&mut eng, ActionActor::System, Action::RemoveFromGroupchat(RemoveFromGroupchat { groupchat_id: gc, player_id: p1 })),
        ActionError::PlayerNotInGroupchat
    );
}

#[test]
fn error_requires_player_or_system() {
    let mut eng = new_engine();
    let p1 = add_player(&mut eng, 0, Role::Civilian, "p1");
    let gc = create_gc(&mut eng);
    assert_eq!(
        err(&mut eng, ActionActor::Admin, Action::AddToGroupchat(AddToGroupchat { groupchat_id: gc, player_id: p1, owner: false })),
        ActionError::RequiresPlayerOrSystem
    );
}

#[test]
fn error_role_config_not_found() {
    let mut config = test_config();
    config.roles.retain(|(role, _)| *role != Role::Detective);
    let mut eng = Engine::new(config);
    let detective = Action::AddPlayer(AddPlayer { true_name: "d".to_string(), starting_role: Role::Detective });
    assert_eq!(err(&mut eng, ActionActor::System, detective), ActionError::RoleConfigNotFound);
}

#[test]
fn error_time_passed() {
    let mut eng = new_engine();
    let p1 = add_player(&mut eng, 0, Role::Civilian, "p1");
    eng.time = 5;
    let kill = Kill { target_id: p1, killer_id: None, silent: true, death_message: None };
    let late = Action::ScheduleKill(ScheduleKill { timestamp: 4, kill, notebook_scheduled: false });
    assert_eq!(err(&mut eng, ActionActor::System, late), ActionError::TimePassed);
    assert!(eng.jobs.is_empty());
}

#[test]
fn create_and_give_ability_checks_recipient_first() {
    let mut eng = new_engine();
    let give = CreateAndGiveAbility { actor_id: 42, ability_name: AbilityName::Gun, variant: 1, transferrable: false, volatile: false };
    let mut req = ActionRequest { actor: ActionActor::System, timestamp: 0, payload: Action::CreateAndGiveAbility(give) };
    let (answer, _) = eng.validate(&mut req);
    assert_eq!(answer.unwrap_err(), ActionError::ActorNotFound);
    assert_eq!(eng.world.abilities.len_slots(), 0);
}
