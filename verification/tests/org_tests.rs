#![allow(dead_code, unused_imports)]

use mafia_engine::ability::gun::Gun;
use mafia_engine::ability::AbilityBehaviour;
use mafia_engine::action::ability::add_link::AddLink;
use mafia_engine::action::ability::create_and_give_ability::CreateAndGiveAbility;
use mafia_engine::action::ability::use_ability::UseAbility;
use mafia_engine::action::actor::add_state::AddState;
use mafia_engine::action::actor::player::revive::Revive;
use mafia_engine::action::actor::remove_state::RemoveState;
use mafia_engine::action::add_player::AddPlayer;
use mafia_engine::action::chargepool::add_charge_pool::AddChargePool;
use mafia_engine::action::{Action, ActionActor, ActionContext, ActionError, ActionRequest, ActionResponse};
use mafia_engine::actor::{
    ActorLinkType, LeadershipTransferPolicies, Modifier, OrgAbilityPolicies, State,
};
use mafia_engine::chargepool::PoolLinkType;
use mafia_engine::common::ID;
use mafia_engine::config::{
    AbilityConfig, AbilityIdentifier, AbilityName, ActorPoolConfig, Config, ConfigPoolLink,
    ConfigPoolLinkDetails, Defaults, LeadershipConfig, OrgAbilityConfig, OrgConfig,
    OrganizationName, Role, RoleActorLink, RoleConfig,
};
use mafia_engine::engine::Engine;
use mafia_engine::passive::PassiveType;

fn gun_kind(variant: u8) -> AbilityIdentifier {
    AbilityIdentifier { name: AbilityName::Gun, variant }
}

fn org_ability(variant: u8, leader: bool, vote: bool, members: u32, roles: Vec<Role>) -> OrgAbilityConfig {
    OrgAbilityConfig {
        identifier: gun_kind(variant),
        require_roles: roles,
        require_members: members,
        usage_policies: OrgAbilityPolicies { require_leader: leader, require_vote: vote },
    }
}

/// A small game: guns of variant 0 draw one charge a use from the actor pool 0 (three
/// charges); guns of variant 1 have no links; the dead can neither act nor be contacted.
fn test_config() -> Config {
    let empty_role = RoleConfig { abilities: vec![], passives: vec![], notebooks: vec![], actor_links: vec![] };
    let mafioso = RoleConfig {
        abilities: vec![],
        passives: vec![],
        notebooks: vec![],
        actor_links: vec![RoleActorLink { role: Role::Mafioso, link_type: ActorLinkType::Knows }],
    };
    Config {
        abilities: vec![
            (
                gun_kind(0),
                AbilityConfig {
                    require_presence: true,
                    default_links: vec![ConfigPoolLink {
                        details: ConfigPoolLinkDetails::Actor(0),
                        link_type: PoolLinkType::Limit,
                        weight: 1,
                    }],
                },
            ),
            (gun_kind(1), AbilityConfig { require_presence: true, default_links: vec![] }),
            (gun_kind(2), AbilityConfig { require_presence: false, default_links: vec![] }),
            (
                AbilityIdentifier { name: AbilityName::Pseudocide, variant: 0 },
                AbilityConfig { require_presence: true, default_links: vec![] },
            ),
        ],
        roles: vec![
            (Role::Civilian, empty_role.clone()),
            (Role::Detective, empty_role),
            (Role::Mafioso, mafioso),
        ],
        state_modifiers: vec![(State::Dead, vec![Modifier::NoPresence, Modifier::NoContact])],
        org_config: vec![
            (
                OrganizationName::NULL,
                OrgConfig {
                    abilities: vec![
                        org_ability(1, false, false, 1, vec![]),
                        org_ability(1, true, false, 1, vec![]),
                        org_ability(1, false, true, 1, vec![]),
                    ],
                    passives: vec![PassiveType::NightImmunity],
                    leadership: Some(LeadershipConfig {
                        transfer_policies: LeadershipTransferPolicies { on_death: false, by_vote: false },
                    }),
                },
            ),
            (
                OrganizationName::Mafia,
                OrgConfig {
                    abilities: vec![org_ability(1, false, false, 2, vec![Role::Mafioso])],
                    passives: vec![],
                    leadership: None,
                },
            ),
        ],
        actor_pools: vec![ActorPoolConfig { name: 0, base_charges: 3, base_reset_time: 1 }],
        defaults: Defaults { universal_abilities: vec![], pseudocide_duration: 10, org_vote_time: 5 },
    }
}

fn run(eng: &mut Engine, timestamp: u64, actor: ActionActor, payload: Action) -> Result<(ActionResponse, ActionContext), ActionError> {
    eng.execute(ActionRequest { actor, timestamp, payload })
}

fn add_player(eng: &mut Engine, timestamp: u64, role: Role, name: &str) -> ID {
    let (response, _) = run(
        eng,
        timestamp,
        ActionActor::System,
        Action::AddPlayer(AddPlayer { true_name: name.to_string(), starting_role: role }),
    )
    .unwrap();
    match response {
        ActionResponse::AddPlayer(data) => data.id,
        _ => panic!("unexpected response"),
    }
}

fn quick_ability(eng: &mut Engine, timestamp: u64, give: CreateAndGiveAbility) -> ID {
    let (response, _) = run(eng, timestamp, ActionActor::System, Action::CreateAndGiveAbility(give)).unwrap();
    match response {
        ActionResponse::CreateAndGiveAbility(data) => data.id,
        _ => panic!("unexpected response"),
    }
}

fn gun_for(eng: &mut Engine, owner: ID, variant: u8, transferrable: bool, volatile: bool) -> ID {
    quick_ability(
        eng,
        0,
        CreateAndGiveAbility { actor_id: owner, ability_name: AbilityName::Gun, variant, transferrable, volatile },
    )
}

fn use_ability(eng: &mut Engine, timestamp: u64, user: ID, ability_id: ID, args: AbilityBehaviour) -> Result<(ActionResponse, ActionContext), ActionError> {
    run(eng, timestamp, ActionActor::Player(user), Action::UseAbility(UseAbility { ability_id, ability_args: args }))
}

fn shoot(eng: &mut Engine, user: ID, ability_id: ID, target: ID) -> Result<(ActionResponse, ActionContext), ActionError> {
    use_ability(eng, 0, user, ability_id, AbilityBehaviour::Gun(Gun { target_id: target }))
}

fn quick_revive(eng: &mut Engine, timestamp: u64, target: ID) {
    run(eng, timestamp, ActionActor::System, Action::Revive(Revive { target_id: target })).unwrap();
}

fn add_state(eng: &mut Engine, timestamp: u64, target: ID, state: State) {
    run(eng, timestamp, ActionActor::System, Action::AddState(AddState { actor_id: target, state })).unwrap();
}

fn remove_state(eng: &mut Engine, timestamp: u64, target: ID, state: State) {
    run(eng, timestamp, ActionActor::System, Action::RemoveState(RemoveState { actor_id: target, state })).unwrap();
}

fn add_pool(eng: &mut Engine, charges: u32) -> ID {
    let (response, _) = run(
        eng,
        0,
        ActionActor::System,
        Action::AddChargePool(AddChargePool { base_charges: charges, base_reset_time: 1 }),
    )
    .unwrap();
    match response {
        ActionResponse::AddChargePool(data) => data.id,
        _ => panic!("unexpected response"),
    }
}

fn link(eng: &mut Engine, ability_id: ID, pool_id: ID, link_type: PoolLinkType, weight: u32, volatile: bool) {
    run(
        eng,
        0,
        ActionActor::System,
        Action::AddLink(AddLink { ability_id, pool_id, link_type, weight, volatile }),
    )
    .unwrap();
}

fn usage_limit(eng: &Engine, ability_id: ID) -> Option<u32> {
    mafia_engine::helpers::get_ability(eng, ability_id).unwrap().get_usage_limit(eng).unwrap()
}

fn charges(eng: &Engine, pool_id: ID) -> u32 {
    mafia_engine::helpers::get_charge_pool(eng, pool_id).unwrap().charges
}

fn new_engine() -> Engine {
    Engine::new(test_config())
}

use mafia_engine::action::actor::org::add_to_org::AddToOrg;
use mafia_engine::action::actor::org::change_org_leader::ChangeOrgLeader;
use mafia_engine::action::actor::org::create_org::CreateOrg;
use mafia_engine::action::actor::org::remove_from_org::RemoveFromOrg;
use mafia_engine::action::actor::org::system_use_org_ability::SystemUseOrgAbility;
use mafia_engine::action::actor::org::use_org_ability::UseOrgAbility;
use mafia_engine::helpers::{actor_get_effective_passive, get_actor, get_org};
use mafia_engine::poll::{PollPolicy, PollVisibility, VoterPolicy};

fn add_org(eng: &mut Engine, timestamp: u64, name: OrganizationName) -> ID {
    let (response, _) = run(eng, timestamp, ActionActor::System, Action::CreateOrg(CreateOrg { name })).unwrap();
    match response {
        ActionResponse::CreateOrg(data) => data.id,
        _ => panic!("unexpected response"),
    }
}

fn try_add_to_org(eng: &mut Engine, org_id: ID, player_id: ID, leader: bool) -> Result<(ActionResponse, ActionContext), ActionError> {
    run(eng, 0, ActionActor::System, Action::AddToOrg(AddToOrg { org_id, player_id, leader }))
}

fn add_to_org(eng: &mut Engine, org_id: ID, player_id: ID, leader: bool) {
    try_add_to_org(eng, org_id, player_id, leader).unwrap();
}

fn remove_from_org(eng: &mut Engine, org_id: ID, actor_id: ID) -> Result<(ActionResponse, ActionContext), ActionError> {
    run(eng, 0, ActionActor::System, Action::RemoveFromOrg(RemoveFromOrg { actor_id, org_id }))
}

fn change_leader(eng: &mut Engine, org_id: ID, leader: Option<ID>) -> Result<(ActionResponse, ActionContext), ActionError> {
    run(eng, 0, ActionActor::System, Action::ChangeOrgLeader(ChangeOrgLeader { org_id, leader }))
}

fn leader_of(eng: &Engine, org_id: ID) -> Option<ID> {
    get_org(eng, org_id).unwrap().leadership_struct.unwrap().leader
}

/// The organization's abilities, in the order of its config: plain, leader only, vote.
fn org_abilities(eng: &Engine, org_id: ID) -> Vec<ID> {
    get_actor(eng, org_id).unwrap().abilities.clone()
}

fn org_shoot(eng: &mut Engine, user: ID, org_id: ID, ability_id: ID, target: ID) -> Result<(ActionResponse, ActionContext), ActionError> {
    run(
        eng,
        0,
        ActionActor::Player(user),
        Action::UseOrgAbility(UseOrgAbility { org_id, ability_id, ability_args: AbilityBehaviour::Gun(Gun { target_id: target }) }),
    )
}

fn is_dead(eng: &Engine, id: ID) -> bool {
    get_actor(eng, id).unwrap().has_state(State::Dead)
}

#[test]
fn basic_addition() {
    let mut eng = new_engine();
    let p1 = add_player(&mut eng, 0, Role::Civilian, "p1");
    let o1 = add_org(&mut eng, 0, OrganizationName::NULL);

    let org = get_org(&eng, o1).unwrap();
    assert!(!org.has_member(p1));

    add_to_org(&mut eng, o1, p1, false);

    let org = get_org(&eng, o1).unwrap();
    assert!(org.has_member(p1));
}

#[test]
fn basic_removal() {
    let mut eng = new_engine();
    let p1 = add_player(&mut eng, 0, Role::Civilian, "p1");
    let o1 = add_org(&mut eng, 0, OrganizationName::NULL);

    add_to_org(&mut eng, o1, p1, false);
    remove_from_org(&mut eng, o1, p1).unwrap();

    let org = get_org(&eng, o1).unwrap();
    assert!(!org.has_member(p1));
}

// operations on dead people should be allowed. these restrictions are only applied through
// invite abilities if applicable.
#[test]
fn add_dead() {
    let mut eng = new_engine();
    let p1 = add_player(&mut eng, 0, Role::Civilian, "p1");
    let o1 = add_org(&mut eng, 0, OrganizationName::NULL);
    add_state(&mut eng, 0, p1, State::Dead);

    add_to_org(&mut eng, o1, p1, false);
    assert!(get_org(&eng, o1).unwrap().has_member(p1));
    assert!(is_dead(&eng, p1));
}

#[test]
fn remove_dead() {
    let mut eng = new_engine();
    let p1 = add_player(&mut eng, 0, Role::Civilian, "p1");
    let o1 = add_org(&mut eng, 0, OrganizationName::NULL);
    add_to_org(&mut eng, o1, p1, false);
    add_state(&mut eng, 0, p1, State::Dead);

    remove_from_org(&mut eng, o1, p1).unwrap();
    assert!(!get_org(&eng, o1).unwrap().has_member(p1));
}

#[test]
fn leader_no_old() {
    let mut eng = new_engine();
    let p1 = add_player(&mut eng, 0, Role::Civilian, "p1");
    let o1 = add_org(&mut eng, 0, OrganizationName::NULL);
    assert_eq!(leader_of(&eng, o1), None);

    add_to_org(&mut eng, o1, p1, true);
    assert_eq!(leader_of(&eng, o1), Some(p1));
}

#[test]
fn change_og_status() {
    let mut eng = new_engine();
    let p1 = add_player(&mut eng, 0, Role::Civilian, "p1");
    let p2 = add_player(&mut eng, 0, Role::Civilian, "p2");
    let o1 = add_org(&mut eng, 0, OrganizationName::NULL);
    add_to_org(&mut eng, o1, p1, true);
    add_to_org(&mut eng, o1, p2, false);

    change_leader(&mut eng, o1, Some(p2)).unwrap();
    let org = get_org(&eng, o1).unwrap();
    assert!(org.has_member(p1));
    assert!(org.has_member(p2));
    assert_eq!(leader_of(&eng, o1), Some(p2));

    change_leader(&mut eng, o1, None).unwrap();
    assert_eq!(leader_of(&eng, o1), None);
    assert!(get_org(&eng, o1).unwrap().has_member(p2));
}

#[test]
fn already_member() {
    let mut eng = new_engine();
    let p1 = add_player(&mut eng, 0, Role::Civilian, "p1");
    let o1 = add_org(&mut eng, 0, OrganizationName::NULL);
    add_to_org(&mut eng, o1, p1, false);

    assert_eq!(try_add_to_org(&mut eng, o1, p1, true).unwrap_err(), ActionError::PlayerAlreadyInOrg);
    assert_eq!(get_org(&eng, o1).unwrap().members, vec![p1]);
    assert_eq!(leader_of(&eng, o1), None);
}

#[test]
fn leader_replace() {
    let mut eng = new_engine();
    let p1 = add_player(&mut eng, 0, Role::Civilian, "p1");
    let p2 = add_player(&mut eng, 0, Role::Civilian, "p2");
    let o1 = add_org(&mut eng, 0, OrganizationName::NULL);
    add_to_org(&mut eng, o1, p1, true);
    add_to_org(&mut eng, o1, p2, true);

    assert_eq!(leader_of(&eng, o1), Some(p2));
    assert!(get_org(&eng, o1).unwrap().has_member(p1));
}

// you should be allowed to replace the leader with a dead person
#[test]
fn leader_replace_dead() {
    let mut eng = new_engine();
    let p1 = add_player(&mut eng, 0, Role::Civilian, "p1");
    let p2 = add_player(&mut eng, 0, Role::Civilian, "p2");
    let o1 = add_org(&mut eng, 0, OrganizationName::NULL);
    add_to_org(&mut eng, o1, p1, true);
    add_to_org(&mut eng, o1, p2, false);
    add_state(&mut eng, 0, p2, State::Dead);

    change_leader(&mut eng, o1, Some(p2)).unwrap();
    assert_eq!(leader_of(&eng, o1), Some(p2));
}

#[test]
fn leader_only_ability() {
    let mut eng = new_engine();
    let p1 = add_player(&mut eng, 0, Role::Civilian, "p1");
    let p2 = add_player(&mut eng, 0, Role::Civilian, "p2");
    let target = add_player(&mut eng, 0, Role::Civilian, "target");
    let o1 = add_org(&mut eng, 0, OrganizationName::NULL);
    add_to_org(&mut eng, o1, p1, true);
    add_to_org(&mut eng, o1, p2, false);
    let leader_only = org_abilities(&eng, o1)[1];

    assert_eq!(org_shoot(&mut eng, p2, o1, leader_only, target).unwrap_err(), ActionError::PlayerIsNotLeader);
    assert!(!is_dead(&eng, target));

    org_shoot(&mut eng, p1, o1, leader_only, target).unwrap();
    assert!(is_dead(&eng, target));
}

#[test]
fn no_vote_ability() {
    let mut eng = new_engine();
    let p1 = add_player(&mut eng, 0, Role::Civilian, "p1");
    let target = add_player(&mut eng, 0, Role::Civilian, "target");
    let o1 = add_org(&mut eng, 0, OrganizationName::NULL);
    add_to_org(&mut eng, o1, p1, false);
    let plain = org_abilities(&eng, o1)[0];

    let (response, _) = org_shoot(&mut eng, p1, o1, plain, target).unwrap();
    match response {
        ActionResponse::UseOrgAbility(data) => assert_eq!(data.poll_id, None),
        _ => panic!("unexpected response"),
    }
    assert!(is_dead(&eng, target));
}

#[test]
fn vote_ability() {
    let mut eng = new_engine();
    let p1 = add_player(&mut eng, 0, Role::Civilian, "p1");
    let target = add_player(&mut eng, 0, Role::Civilian, "target");
    let o1 = add_org(&mut eng, 0, OrganizationName::NULL);
    add_to_org(&mut eng, o1, p1, false);
    let by_vote = org_abilities(&eng, o1)[2];

    let (response, _) = org_shoot(&mut eng, p1, o1, by_vote, target).unwrap();
    let poll_id = match response {
        ActionResponse::UseOrgAbility(data) => data.poll_id.unwrap(),
        _ => panic!("unexpected response"),
    };
    assert!(!is_dead(&eng, target));

    // the poll decides by a majority of the present members, and its decision carries the
    // use out without a further vote
    let poll = eng.polls.take(poll_id).unwrap();
    assert_eq!(poll.voter_policy, VoterPolicy::Present);
    assert_eq!(poll.visibility, PollVisibility::Org(o1));
    assert_eq!(poll.update_policy, PollPolicy::Majority);
    assert_eq!(poll.timeout_policy, PollPolicy::Majority);
    assert_eq!(poll.duration, Some(5));
    let payload = *poll.payload;
    match &payload {
        Action::SystemUseOrgAbility(use_) => {
            assert!(use_.dont_vote);
            assert_eq!((use_.org_id, use_.user_id, use_.ability_id), (o1, p1, by_vote));
        },
        _ => panic!("unexpected payload"),
    }
    run(&mut eng, 0, ActionActor::System, payload).unwrap();
    assert!(is_dead(&eng, target));
}

// they shouldnt be allowed to start votes and such if theyre not present
#[test]
fn dead_use_ability() {
    let mut eng = new_engine();
    let p1 = add_player(&mut eng, 0, Role::Civilian, "p1");
    let target = add_player(&mut eng, 0, Role::Civilian, "target");
    let o1 = add_org(&mut eng, 0, OrganizationName::NULL);
    add_to_org(&mut eng, o1, p1, false);
    add_state(&mut eng, 0, p1, State::Dead);
    let plain = org_abilities(&eng, o1)[0];
    let by_vote = org_abilities(&eng, o1)[2];

    assert_eq!(org_shoot(&mut eng, p1, o1, plain, target).unwrap_err(), ActionError::NotEnoughMembers);
    assert_eq!(org_shoot(&mut eng, p1, o1, by_vote, target).unwrap_err(), ActionError::NotEnoughMembers);
    assert!(!is_dead(&eng, target));
}

#[test]
fn members_have_effective_passives() {
    let mut eng = new_engine();
    let p1 = add_player(&mut eng, 0, Role::Civilian, "p1");
    let o1 = add_org(&mut eng, 0, OrganizationName::NULL);
    assert_eq!(actor_get_effective_passive(&eng, p1, PassiveType::NightImmunity), None);

    add_to_org(&mut eng, o1, p1, false);
    let passive = actor_get_effective_passive(&eng, p1, PassiveType::NightImmunity);
    assert!(passive.is_some());
    assert_eq!(passive, actor_get_effective_passive(&eng, o1, PassiveType::NightImmunity));

    remove_from_org(&mut eng, o1, p1).unwrap();
    assert_eq!(actor_get_effective_passive(&eng, p1, PassiveType::NightImmunity), None);
}

#[test]
fn required_roles_and_members() {
    let mut eng = new_engine();
    let p1 = add_player(&mut eng, 0, Role::Civilian, "p1");
    let p2 = add_player(&mut eng, 0, Role::Civilian, "p2");
    let target = add_player(&mut eng, 0, Role::Civilian, "target");
    let mafia = add_org(&mut eng, 0, OrganizationName::Mafia);
    assert_eq!(get_org(&eng, mafia).unwrap().leadership_struct, None);
    assert_eq!(change_leader(&mut eng, mafia, Some(p1)).unwrap_err(), ActionError::NoLeadership);
    let hit = org_abilities(&eng, mafia)[0];

    add_to_org(&mut eng, mafia, p1, false);
    assert_eq!(org_shoot(&mut eng, p1, mafia, hit, target).unwrap_err(), ActionError::NotEnoughMembers);
    add_to_org(&mut eng, mafia, p2, false);
    assert_eq!(org_shoot(&mut eng, p1, mafia, hit, target).unwrap_err(), ActionError::RequiredRolesNotPresent);

    let m = add_player(&mut eng, 0, Role::Mafioso, "m");
    add_to_org(&mut eng, mafia, m, false);
    org_shoot(&mut eng, p1, mafia, hit, target).unwrap();
    assert!(is_dead(&eng, target));
}

#[test]
fn org_membership_errors() {
    let mut eng = new_engine();
    let p1 = add_player(&mut eng, 0, Role::Civilian, "p1");
    let p2 = add_player(&mut eng, 0, Role::Civilian, "p2");
    let o1 = add_org(&mut eng, 0, OrganizationName::NULL);
    assert_eq!(remove_from_org(&mut eng, o1, p1).unwrap_err(), ActionError::PlayerNotInOrg);
    assert_eq!(change_leader(&mut eng, o1, Some(p2)).unwrap_err(), ActionError::PlayerNotInOrg);
    assert_eq!(try_add_to_org(&mut eng, p2, p1, false).unwrap_err(), ActionError::NotAnOrg);
    assert_eq!(try_add_to_org(&mut eng, o1, o1, false).unwrap_err(), ActionError::NotAPlayer);
    assert_eq!(
        run(&mut eng, 0, ActionActor::Player(p1), Action::AddToOrg(AddToOrg { org_id: o1, player_id: p1, leader: false }))
            .unwrap_err(),
        ActionError::RequiresSystem
    );
}

#[test]
fn death_keeps_membership_and_leadership() {
    let mut eng = new_engine();
    let p1 = add_player(&mut eng, 0, Role::Civilian, "p1");
    let o1 = add_org(&mut eng, 0, OrganizationName::NULL);
    add_to_org(&mut eng, o1, p1, true);

    run(
        &mut eng,
        0,
        ActionActor::System,
        Action::Kill(mafia_engine::action::actor::player::kill::Kill {
            target_id: p1,
            killer_id: None,
            silent: false,
            death_message: None,
        }),
    )
    .unwrap();
    assert!(is_dead(&eng, p1));
    assert!(get_org(&eng, o1).unwrap().has_member(p1));
    assert_eq!(leader_of(&eng, o1), Some(p1));
}

#[test]
fn join_then_leave_restores_links() {
    let mut eng = new_engine();
    let p1 = add_player(&mut eng, 0, Role::Mafioso, "p1");
    let p2 = add_player(&mut eng, 0, Role::Civilian, "p2");
    let o1 = add_org(&mut eng, 0, OrganizationName::NULL);
    add_to_org(&mut eng, o1, p2, false);
    let links_before = get_actor(&eng, p1).unwrap().links.clone();
    let members_before = get_org(&eng, o1).unwrap().members.clone();

    add_to_org(&mut eng, o1, p1, false);
    assert_ne!(get_actor(&eng, p1).unwrap().links, links_before);
    remove_from_org(&mut eng, o1, p1).unwrap();

    assert_eq!(get_actor(&eng, p1).unwrap().links, links_before);
    assert_eq!(get_org(&eng, o1).unwrap().members, members_before);
}
