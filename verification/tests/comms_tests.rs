#![allow(dead_code, unused_imports)]

use mafia_engine::ability::gun::Gun;
use mafia_engine::ability::AbilityBehaviour;
use mafia_engine::action::ability::add_link::AddLink;
use mafia_engine::action::ability::create_and_give_ability::CreateAndGiveAbility;
use mafia_engine::action::ability::use_ability::UseAbility;
use mafia_engine::action::actor::add_state::AddState;
use mafia_engine::action::actor::player::revive::Revive;
use mafia_engine::action::actor::remove_state::RemoveState;
use mafia_engine::action::add_player::AddPlayer;
use mafia_engine::action::chargepool::add_charge_pool::AddChargePool;
use mafia_engine::action::{Action, ActionActor, ActionContext, ActionError, ActionRequest, ActionResponse};
use mafia_engine::actor::{
    ActorLinkType, LeadershipTransferPolicies, Modifier, OrgAbilityPolicies, State,
};
use mafia_engine::chargepool::PoolLinkType;
use mafia_engine::common::ID;
use mafia_engine::config::{
    AbilityConfig, AbilityIdentifier, AbilityName, ActorPoolConfig, Config, ConfigPoolLink,
    ConfigPoolLinkDetails, Defaults, LeadershipConfig, OrgAbilityConfig, OrgConfig,
    OrganizationName, Role, RoleActorLink, RoleConfig,
};
use mafia_engine::engine::Engine;
use mafia_engine::passive::PassiveType;

fn gun_kind(variant: u8) -> AbilityIdentifier {
    AbilityIdentifier { name: AbilityName::Gun, variant }
}

fn org_ability(variant: u8, leader: bool, vote: bool, members: u32, roles: Vec<Role>) -> OrgAbilityConfig {
    OrgAbilityConfig {
        identifier: gun_kind(variant),
        require_roles: roles,
        require_members: members,
        usage_policies: OrgAbilityPolicies { require_leader: leader, require_vote: vote },
    }
}

/// A small game: guns of variant 0 draw one charge a use from the actor pool 0 (three
/// charges); guns of variant 1 have no links; the dead can neither act nor be contacted.
fn test_config() -> Config {
    let empty_role = RoleConfig { abilities: vec![], passives: vec![], notebooks: vec![], actor_links: vec![] };
    let mafioso = RoleConfig {
        abilities: vec![],
        passives: vec![],
        notebooks: vec![],
        actor_links: vec![RoleActorLink { role: Role::Mafioso, link_type: ActorLinkType::Knows }],
    };
    Config {
        abilities: vec![
            (
                gun_kind(0),
                AbilityConfig {
                    require_presence: true,
                    default_links: vec![ConfigPoolLink {
                        details: ConfigPoolLinkDetails::Actor(0),
                        link_type: PoolLinkType::Limit,
                        weight: 1,
                    }],
                },
            ),
            (gun_kind(1), AbilityConfig { require_presence: true, default_links: vec![] }),
            (gun_kind(2), AbilityConfig { require_presence: false, default_links: vec![] }),
            (
                AbilityIdentifier { name: AbilityName::Pseudocide, variant: 0 },
                AbilityConfig { require_presence: true, default_links: vec![] },
            ),
        ],
        roles: vec![
            (Role::Civilian, empty_role.clone()),
            (Role::Detective, empty_role),
            (Role::Mafioso, mafioso),
        ],
        state_modifiers: vec![(State::Dead, vec![Modifier::NoPresence, Modifier::NoContact])],
        org_config: vec![
            (
                OrganizationName::NULL,
                OrgConfig {
                    abilities: vec![
                        org_ability(1, false, false, 1, vec![]),
                        org_ability(1, true, false, 1, vec![]),
                        org_ability(1, false, true, 1, vec![]),
                    ],
                    passives: vec![PassiveType::NightImmunity],
                    leadership: Some(LeadershipConfig {
                        transfer_policies: LeadershipTransferPolicies { on_death: false, by_vote: false },
                    }),
                },
            ),
            (
                OrganizationName::Mafia,
                OrgConfig {
                    abilities: vec![org_ability(1, false, false, 2, vec![Role::Mafioso])],
                    passives: vec![],
                    leadership: None,
                },
            ),
        ],
        actor_pools: vec![ActorPoolConfig { name: 0, base_charges: 3, base_reset_time: 1 }],
        defaults: Defaults { universal_abilities: vec![], pseudocide_duration: 10, org_vote_time: 5 },
    }
}

fn run(eng: &mut Engine, timestamp: u64, actor: ActionActor, payload: Action) -> Result<(ActionResponse, ActionContext), ActionError> {
    eng.execute(ActionRequest { actor, timestamp, payload })
}

fn add_player(eng: &mut Engine, timestamp: u64, role: Role, name: &str) -> ID {
    let (response, _) = run(
        eng,
        timestamp,
        ActionActor::System,
        Action::AddPlayer(AddPlayer { true_name: name.to_string(), starting_role: role }),
    )
    .unwrap();
    match response {
        ActionResponse::AddPlayer(data) => data.id,
        _ => panic!("unexpected response"),
    }
}

fn quick_ability(eng: &mut Engine, timestamp: u64, give: CreateAndGiveAbility) -> ID {
    let (response, _) = run(eng, timestamp, ActionActor::System, Action::CreateAndGiveAbility(give)).unwrap();
    match response {
        ActionResponse::CreateAndGiveAbility(data) => data.id,
        _ => panic!("unexpected response"),
    }
}

fn gun_for(eng: &mut Engine, owner: ID, variant: u8, transferrable: bool, volatile: bool) -> ID {
    quick_ability(
        eng,
        0,
        CreateAndGiveAbility { actor_id: owner, ability_name: AbilityName::Gun, variant, transferrable, volatile },
    )
}

fn use_ability(eng: &mut Engine, timestamp: u64, user: ID, ability_id: ID, args: AbilityBehaviour) -> Result<(ActionResponse, ActionContext), ActionError> {
    run(eng, timestamp, ActionActor::Player(user), Action::UseAbility(UseAbility { ability_id, ability_args: args }))
}

fn shoot(eng: &mut Engine, user: ID, ability_id: ID, target: ID) -> Result<(ActionResponse, ActionContext), ActionError> {
    use_ability(eng, 0, user, ability_id, AbilityBehaviour::Gun(Gun { target_id: target }))
}

fn quick_revive(eng: &mut Engine, timestamp: u64, target: ID) {
    run(eng, timestamp, ActionActor::System, Action::Revive(Revive { target_id: target })).unwrap();
}

fn add_state(eng: &mut Engine, timestamp: u64, target: ID, state: State) {
    run(eng, timestamp, ActionActor::System, Action::AddState(AddState { actor_id: target, state })).unwrap();
}

fn remove_state(eng: &mut Engine, timestamp: u64, target: ID, state: State) {
    run(eng, timestamp, ActionActor::System, Action::RemoveState(RemoveState { actor_id: target, state })).unwrap();
}

fn add_pool(eng: &mut Engine, charges: u32) -> ID {
    let (response, _) = run(
        eng,
        0,
        ActionActor::System,
        Action::AddChargePool(AddChargePool { base_charges: charges, base_reset_time: 1 }),
    )
    .unwrap();
    match response {
        ActionResponse::AddChargePool(data) => data.id,
        _ => panic!("unexpected response"),
    }
}

fn link(eng: &mut Engine, ability_id: ID, pool_id: ID, link_type: PoolLinkType, weight: u32, volatile: bool) {
    run(
        eng,
        0,
        ActionActor::System,
        Action::AddLink(AddLink { ability_id, pool_id, link_type, weight, volatile }),
    )
    .unwrap();
}

fn usage_limit(eng: &Engine, ability_id: ID) -> Option<u32> {
    mafia_engine::helpers::get_ability(eng, ability_id).unwrap().get_usage_limit(eng).unwrap()
}

fn charges(eng: &Engine, pool_id: ID) -> u32 {
    mafia_engine::helpers::get_charge_pool(eng, pool_id).unwrap().charges
}

fn new_engine() -> Engine {
    Engine::new(test_config())
}

use indexmap::IndexSet;
use mafia_engine::action::command::Command;
use mafia_engine::action::comms::channel::create_channel::CreateChannel;
use mafia_engine::action::comms::channel::send_message::SendMessage;
use mafia_engine::action::comms::channel::set_loggable::SetLoggable;
use mafia_engine::action::comms::channel::set_member::SetMember;
use mafia_engine::action::comms::groupchat::add_to_groupchat::AddToGroupchat;
use mafia_engine::action::comms::groupchat::create_groupchat::CreateGroupchat;
use mafia_engine::action::comms::groupchat::remove_from_groupchat::RemoveFromGroupchat;
use mafia_engine::action::comms::groupchat::set_groupchat_owner::SetGroupchatOwner;
use mafia_engine::action::comms::lounge::create_lounge::CreateLounge;
use mafia_engine::action::comms::lounge::leave_lounge::LeaveLounge;
use mafia_engine::channel::{ChannelMember, ChannelPermission, ChannelPermissions, SenderDisplay};
use mafia_engine::helpers::{get_channel, get_gc, get_player};
use mafia_engine::lounge::LoungeVariant;

type Outcome = Result<(ActionResponse, ActionContext), ActionError>;

fn create_channel(eng: &mut Engine, timestamp: u64, loggable: bool) -> ID {
    let (response, _) = run(eng, timestamp, ActionActor::System, Action::CreateChannel(CreateChannel { loggable })).unwrap();
    match response {
        ActionResponse::CreateChannel(data) => data.id,
        _ => panic!("unexpected response"),
    }
}

fn set_member(eng: &mut Engine, timestamp: u64, player_id: ID, channel_id: ID, settings: Option<ChannelMember>) -> Outcome {
    run(eng, timestamp, ActionActor::System, Action::SetMember(SetMember { player_id, channel_id, settings }))
}

fn send_message(eng: &mut Engine, timestamp: u64, sender: ID, channel_id: ID, display: SenderDisplay, content: &str) -> Outcome {
    run(
        eng,
        timestamp,
        ActionActor::Player(sender),
        Action::SendMessage(SendMessage { channel_id, display, content: content.to_string() }),
    )
}

fn create_gc(eng: &mut Engine, timestamp: u64) -> ID {
    let (response, _) = run(eng, timestamp, ActionActor::System, Action::CreateGroupchat(CreateGroupchat {})).unwrap();
    match response {
        ActionResponse::CreateGroupchat(data) => data.id,
        _ => panic!("unexpected response"),
    }
}

fn add_to_gc(eng: &mut Engine, timestamp: u64, actor: ActionActor, groupchat_id: ID, player_id: ID, owner: bool) -> Outcome {
    run(eng, timestamp, actor, Action::AddToGroupchat(AddToGroupchat { groupchat_id, player_id, owner }))
}

fn remove_from_gc(eng: &mut Engine, timestamp: u64, actor: ActionActor, groupchat_id: ID, player_id: ID) -> Outcome {
    run(eng, timestamp, actor, Action::RemoveFromGroupchat(RemoveFromGroupchat { groupchat_id, player_id }))
}

fn set_gc_owner(eng: &mut Engine, timestamp: u64, actor: ActionActor, groupchat_id: ID, owner: Option<ID>) -> Outcome {
    run(eng, timestamp, actor, Action::SetGroupchatOwner(SetGroupchatOwner { groupchat_id, owner }))
}

fn create_lounge(eng: &mut Engine, timestamp: u64, variant: LoungeVariant) -> (ID, ID) {
    let (response, _) = run(eng, timestamp, ActionActor::System, Action::CreateLounge(CreateLounge { variant })).unwrap();
    match response {
        ActionResponse::CreateLounge(data) => (data.lounge_id, data.channel_id),
        _ => panic!("unexpected response"),
    }
}

fn leave_lounge(eng: &mut Engine, timestamp: u64, player: ID, lounge_id: ID) -> Outcome {
    run(eng, timestamp, ActionActor::Player(player), Action::LeaveLounge(LeaveLounge { lounge_id }))
}

fn displays_of(ids: &[SenderDisplay]) -> IndexSet<SenderDisplay> {
    let mut set = IndexSet::new();
    for d in ids {
        set.insert(*d);
    }
    set
}

fn sender(p: ID) -> ChannelMember {
    ChannelMember { perms: ChannelPermissions::send_and_view(), displays: displays_of(&[SenderDisplay::Raw(p)]) }
}

// ---- channel ----

#[test]
fn set_member_adds_player() {
    let mut eng = new_engine();
    let p1 = add_player(&mut eng, 0, Role::Civilian, "p1");
    let ch = create_channel(&mut eng, 0, false);

    set_member(&mut eng, 0, p1, ch, Some(sender(p1))).unwrap();

    assert!(get_channel(&eng, ch).unwrap().get_member(p1).is_some());
}

#[test]
fn set_member_removes_player() {
    let mut eng = new_engine();
    let p1 = add_player(&mut eng, 0, Role::Civilian, "p1");
    let ch = create_channel(&mut eng, 0, false);

    set_member(&mut eng, 0, p1, ch, Some(sender(p1))).unwrap();
    set_member(&mut eng, 0, p1, ch, None).unwrap();

    assert!(get_channel(&eng, ch).unwrap().get_member(p1).is_none());
}

#[test]
fn set_member_emits_update_channel_view() {
    let mut eng = new_engine();
    let p1 = add_player(&mut eng, 0, Role::Civilian, "p1");
    let ch = create_channel(&mut eng, 0, false);

    let (_, ctx) = set_member(&mut eng, 0, p1, ch, Some(sender(p1))).unwrap();

    assert!(ctx.commands.iter().any(|p| {
        p.recipient == Some(p1) && matches!(&p.cmd, Command::UpdateChannelView { channel_id, .. } if *channel_id == ch)
    }));
}

#[test]
fn set_member_removal_emits_remove_channel() {
    let mut eng = new_engine();
    let p1 = add_player(&mut eng, 0, Role::Civilian, "p1");
    let ch = create_channel(&mut eng, 0, false);

    set_member(&mut eng, 0, p1, ch, Some(sender(p1))).unwrap();
    let (_, ctx) = set_member(&mut eng, 0, p1, ch, None).unwrap();

    assert!(ctx.commands.iter().any(|p| {
        p.recipient == Some(p1) && matches!(&p.cmd, Command::RemoveChannel { channel_id } if *channel_id == ch)
    }));
}

#[test]
fn set_loggable_toggles_flag() {
    let mut eng = new_engine();
    let ch = create_channel(&mut eng, 0, false);

    assert!(!get_channel(&eng, ch).unwrap().loggable);

    run(&mut eng, 0, ActionActor::System, Action::SetLoggable(SetLoggable { channel_id: ch, loggable: true })).unwrap();

    assert!(get_channel(&eng, ch).unwrap().loggable);
}

#[test]
fn send_message_valid() {
    let mut eng = new_engine();
    let p1 = add_player(&mut eng, 0, Role::Civilian, "p1");
    let ch = create_channel(&mut eng, 0, false);

    set_member(&mut eng, 0, p1, ch, Some(sender(p1))).unwrap();

    let (_, ctx) = send_message(&mut eng, 0, p1, ch, SenderDisplay::Raw(p1), "hello").unwrap();

    assert!(ctx.commands.iter().any(|p| {
        matches!(&p.cmd, Command::AddMessage { channel_id, content, sender_display }
            if *channel_id == ch && content == "hello" && *sender_display == SenderDisplay::Raw(p1))
    }));
}

#[test]
fn send_message_not_a_member() {
    let mut eng = new_engine();
    let p1 = add_player(&mut eng, 0, Role::Civilian, "p1");
    let ch = create_channel(&mut eng, 0, false);

    assert!(send_message(&mut eng, 0, p1, ch, SenderDisplay::Raw(p1), "hello").is_err());
}

#[test]
fn send_message_no_send_perm() {
    let mut eng = new_engine();
    let p1 = add_player(&mut eng, 0, Role::Civilian, "p1");
    let ch = create_channel(&mut eng, 0, false);

    set_member(
        &mut eng,
        0,
        p1,
        ch,
        Some(ChannelMember {
            perms: ChannelPermissions::only(ChannelPermission::View),
            displays: displays_of(&[SenderDisplay::Raw(p1)]),
        }),
    )
    .unwrap();

    assert!(send_message(&mut eng, 0, p1, ch, SenderDisplay::Raw(p1), "hello").is_err());
}

#[test]
fn send_message_display_not_owned() {
    let mut eng = new_engine();
    let p1 = add_player(&mut eng, 0, Role::Civilian, "p1");
    let p2 = add_player(&mut eng, 0, Role::Civilian, "p2");
    let ch = create_channel(&mut eng, 0, false);

    set_member(&mut eng, 0, p1, ch, Some(sender(p1))).unwrap();

    // p1 tries to send as p2 which they do not own
    assert!(send_message(&mut eng, 0, p1, ch, SenderDisplay::Raw(p2), "hello").is_err());
}

#[test]
fn set_member_add_does_not_emit_remove_channel() {
    let mut eng = new_engine();
    let p1 = add_player(&mut eng, 0, Role::Civilian, "p1");
    let ch = create_channel(&mut eng, 0, false);

    let (_, ctx) = set_member(&mut eng, 0, p1, ch, Some(sender(p1))).unwrap();

    assert!(!ctx.commands.iter().any(|p| matches!(&p.cmd, Command::RemoveChannel { .. })));
}

#[test]
fn set_member_remove_does_not_emit_update_channel_view() {
    let mut eng = new_engine();
    let p1 = add_player(&mut eng, 0, Role::Civilian, "p1");
    let ch = create_channel(&mut eng, 0, false);

    set_member(&mut eng, 0, p1, ch, Some(sender(p1))).unwrap();

    let (_, ctx) = set_member(&mut eng, 0, p1, ch, None).unwrap();

    assert!(!ctx.commands.iter().any(|p| matches!(&p.cmd, Command::UpdateChannelView { .. })));
}

#[test]
fn send_message_errors() {
    let mut eng = new_engine();
    let p1 = add_player(&mut eng, 0, Role::Civilian, "p1");
    let p2 = add_player(&mut eng, 0, Role::Civilian, "p2");
    let ch = create_channel(&mut eng, 0, false);
    set_member(&mut eng, 0, p1, ch, Some(sender(p1))).unwrap();
    set_member(
        &mut eng,
        0,
        p2,
        ch,
        Some(ChannelMember { perms: ChannelPermissions::only(ChannelPermission::View), displays: displays_of(&[]) }),
    )
    .unwrap();

    assert_eq!(send_message(&mut eng, 0, p2, 99, SenderDisplay::Raw(p2), "x").unwrap_err(), ActionError::ChannelNotFound);
    assert_eq!(send_message(&mut eng, 0, p2, ch, SenderDisplay::Raw(p2), "x").unwrap_err(), ActionError::InsufficientPermissions);
    assert_eq!(send_message(&mut eng, 0, p1, ch, SenderDisplay::Anonymous, "x").unwrap_err(), ActionError::DisplayNotOwned);
    assert_eq!(
        run(
            &mut eng,
            0,
            ActionActor::System,
            Action::SendMessage(SendMessage { channel_id: ch, display: SenderDisplay::Raw(p1), content: "x".to_string() })
        )
        .unwrap_err(),
        ActionError::RequiresPlayer
    );
}

// ---- groupchat ----

#[test]
fn create_groupchat_emits_map_gc() {
    let mut eng = new_engine();

    let (response, ctx) = run(&mut eng, 0, ActionActor::System, Action::CreateGroupchat(CreateGroupchat {})).unwrap();

    let data = match response {
        ActionResponse::CreateGroupchat(data) => data,
        _ => unreachable!(),
    };
    let channel_id = get_gc(&eng, data.id).unwrap().channel_id;

    assert!(ctx.commands.iter().any(|p| {
        p.recipient.is_none()
            && matches!(&p.cmd, Command::MapGc { gc_id, channel_id: cid } if *gc_id == data.id && *cid == channel_id)
    }));
}

#[test]
fn add_to_groupchat_system() {
    let mut eng = new_engine();
    let p1 = add_player(&mut eng, 0, Role::Civilian, "p1");
    let p2 = add_player(&mut eng, 0, Role::Civilian, "p2");
    let gc = create_gc(&mut eng, 0);

    // without owner flag: member and cache updated, no GcOwnerStatus emitted
    let (_, ctx) = add_to_gc(&mut eng, 0, ActionActor::System, gc, p1, false).unwrap();
    assert!(get_gc(&eng, gc).unwrap().contains_member(p1));
    assert!(get_player(&eng, p1).unwrap().groupchats.contains(&gc));
    assert!(!ctx.commands.iter().any(|p| matches!(&p.cmd, Command::GcOwnerStatus { .. })));

    // with owner flag: GcOwnerStatus{owner: true} emitted to new owner
    let (_, ctx) = add_to_gc(&mut eng, 0, ActionActor::System, gc, p2, true).unwrap();
    assert!(ctx.commands.iter().any(|p| {
        p.recipient == Some(p2) && matches!(&p.cmd, Command::GcOwnerStatus { owner: true, gc_id } if *gc_id == gc)
    }));
}

#[test]
fn add_to_groupchat_as_owner_player() {
    let mut eng = new_engine();
    let p1 = add_player(&mut eng, 0, Role::Civilian, "p1");
    let p2 = add_player(&mut eng, 0, Role::Civilian, "p2");
    let gc = create_gc(&mut eng, 0);

    add_to_gc(&mut eng, 0, ActionActor::System, gc, p1, true).unwrap();
    add_to_gc(&mut eng, 0, ActionActor::Player(p1), gc, p2, false).unwrap();

    assert!(get_gc(&eng, gc).unwrap().contains_member(p2));
}

#[test]
fn remove_from_groupchat_as_owner_player() {
    let mut eng = new_engine();
    let p1 = add_player(&mut eng, 0, Role::Civilian, "p1");
    let p2 = add_player(&mut eng, 0, Role::Civilian, "p2");
    let gc = create_gc(&mut eng, 0);

    add_to_gc(&mut eng, 0, ActionActor::System, gc, p1, true).unwrap();
    add_to_gc(&mut eng, 0, ActionActor::System, gc, p2, false).unwrap();
    remove_from_gc(&mut eng, 0, ActionActor::Player(p1), gc, p2).unwrap();

    assert!(!get_gc(&eng, gc).unwrap().contains_member(p2));
}

#[test]
fn add_to_groupchat_non_owner_player() {
    let mut eng = new_engine();
    let p1 = add_player(&mut eng, 0, Role::Civilian, "p1");
    let p2 = add_player(&mut eng, 0, Role::Civilian, "p2");
    let gc = create_gc(&mut eng, 0);

    assert!(add_to_gc(&mut eng, 0, ActionActor::Player(p1), gc, p2, false).is_err());
}

#[test]
fn add_to_groupchat_target_no_contact() {
    let mut eng = new_engine();
    let p1 = add_player(&mut eng, 0, Role::Civilian, "p1");
    let gc = create_gc(&mut eng, 0);

    add_state(&mut eng, 0, p1, State::Dead);

    assert!(add_to_gc(&mut eng, 0, ActionActor::System, gc, p1, false).is_err());
}

#[test]
fn remove_from_groupchat_not_member() {
    let mut eng = new_engine();
    let p1 = add_player(&mut eng, 0, Role::Civilian, "p1");
    let gc = create_gc(&mut eng, 0);

    assert!(remove_from_gc(&mut eng, 0, ActionActor::System, gc, p1).is_err());
}

#[test]
fn set_gc_owner_emits_status_cmds() {
    let mut eng = new_engine();
    let p1 = add_player(&mut eng, 0, Role::Civilian, "p1");
    let p2 = add_player(&mut eng, 0, Role::Civilian, "p2");
    let gc = create_gc(&mut eng, 0);

    add_to_gc(&mut eng, 0, ActionActor::System, gc, p1, true).unwrap();
    add_to_gc(&mut eng, 0, ActionActor::System, gc, p2, false).unwrap();

    let (_, ctx) = set_gc_owner(&mut eng, 0, ActionActor::System, gc, Some(p2)).unwrap();

    assert!(ctx.commands.iter().any(|p| {
        p.recipient == Some(p1) && matches!(&p.cmd, Command::GcOwnerStatus { owner: false, gc_id } if *gc_id == gc)
    }));
    assert!(ctx.commands.iter().any(|p| {
        p.recipient == Some(p2) && matches!(&p.cmd, Command::GcOwnerStatus { owner: true, gc_id } if *gc_id == gc)
    }));
    assert_eq!(get_gc(&eng, gc).unwrap().owner, Some(p2));
}

// ---- lounge ----

fn basic(p1: ID, p2: ID) -> LoungeVariant {
    LoungeVariant::Basic { contactor_id: p1, contacted_id: p2 }
}

#[test]
fn create_basic_lounge_participants_in_channel() {
    let mut eng = new_engine();
    let p1 = add_player(&mut eng, 0, Role::Civilian, "p1");
    let p2 = add_player(&mut eng, 0, Role::Civilian, "p2");

    let (_, ch) = create_lounge(&mut eng, 0, basic(p1, p2));

    let channel = get_channel(&eng, ch).unwrap();
    assert!(channel.get_member(p1).is_some());
    assert!(channel.get_member(p2).is_some());
}

#[test]
fn create_lounge_updates_player_caches() {
    let mut eng = new_engine();
    let p1 = add_player(&mut eng, 0, Role::Civilian, "p1");
    let p2 = add_player(&mut eng, 0, Role::Civilian, "p2");

    let (lounge_id, _) = create_lounge(&mut eng, 0, basic(p1, p2));

    assert!(get_player(&eng, p1).unwrap().lounges.contains(&lounge_id));
    assert!(get_player(&eng, p2).unwrap().lounges.contains(&lounge_id));
}

#[test]
fn create_lounge_emits_map_lounge() {
    let mut eng = new_engine();
    let p1 = add_player(&mut eng, 0, Role::Civilian, "p1");
    let p2 = add_player(&mut eng, 0, Role::Civilian, "p2");

    let (response, ctx) =
        run(&mut eng, 0, ActionActor::System, Action::CreateLounge(CreateLounge { variant: basic(p1, p2) })).unwrap();

    let data = match response {
        ActionResponse::CreateLounge(data) => data,
        _ => unreachable!(),
    };

    assert!(ctx.commands.iter().any(|p| {
        p.recipient.is_none()
            && matches!(&p.cmd, Command::MapLounge { lounge_id, channel_id }
                if *lounge_id == data.lounge_id && *channel_id == data.channel_id)
    }));
}

#[test]
fn leave_lounge_removes_from_channel() {
    let mut eng = new_engine();
    let p1 = add_player(&mut eng, 0, Role::Civilian, "p1");
    let p2 = add_player(&mut eng, 0, Role::Civilian, "p2");

    let (lounge_id, ch) = create_lounge(&mut eng, 0, basic(p1, p2));

    leave_lounge(&mut eng, 0, p1, lounge_id).unwrap();

    assert!(get_channel(&eng, ch).unwrap().get_member(p1).is_none());
}

#[test]
fn leave_lounge_updates_player_cache() {
    let mut eng = new_engine();
    let p1 = add_player(&mut eng, 0, Role::Civilian, "p1");
    let p2 = add_player(&mut eng, 0, Role::Civilian, "p2");

    let (lounge_id, _) = create_lounge(&mut eng, 0, basic(p1, p2));

    leave_lounge(&mut eng, 0, p1, lounge_id).unwrap();

    assert!(!get_player(&eng, p1).unwrap().lounges.contains(&lounge_id));
}

// ---- update_contact_channels ----

#[test]
fn no_contact_clears_lounge_perms() {
    let mut eng = new_engine();
    let p1 = add_player(&mut eng, 0, Role::Civilian, "p1");
    let p2 = add_player(&mut eng, 0, Role::Civilian, "p2");

    let (_, ch) = create_lounge(&mut eng, 0, basic(p1, p2));

    add_state(&mut eng, 0, p1, State::Dead);

    assert!(get_channel(&eng, ch).unwrap().get_member(p1).unwrap().perms.is_empty());
}

#[test]
fn no_contact_cleared_restores_lounge_perms() {
    let mut eng = new_engine();
    let p1 = add_player(&mut eng, 0, Role::Civilian, "p1");
    let p2 = add_player(&mut eng, 0, Role::Civilian, "p2");

    let (_, ch) = create_lounge(&mut eng, 0, basic(p1, p2));

    add_state(&mut eng, 0, p1, State::Dead);
    remove_state(&mut eng, 0, p1, State::Dead);

    let member = get_channel(&eng, ch).unwrap().get_member(p1).unwrap().duplicate();
    assert!(member.perms.contains(ChannelPermission::Send));
    assert!(member.perms.contains(ChannelPermission::View));
}

#[test]
fn create_lounge_gives_contact_permissions() {
    let mut eng = new_engine();
    let p1 = add_player(&mut eng, 0, Role::Civilian, "p1");
    let p2 = add_player(&mut eng, 0, Role::Civilian, "p2");
    add_state(&mut eng, 0, p2, State::Dead);

    let (_, ch) = create_lounge(&mut eng, 0, basic(p1, p2));

    let channel = get_channel(&eng, ch).unwrap();
    assert_eq!(channel.get_member(p1).unwrap().perms, ChannelPermissions::send_and_view());
    assert!(channel.get_member(p2).unwrap().perms.is_empty());
}

#[test]
fn add_to_groupchat_refuses_an_organization_after_listing_it() {
    let mut eng = new_engine();
    let gc = create_gc(&mut eng, 0);
    let (response, _) = run(
        &mut eng,
        0,
        ActionActor::System,
        Action::CreateOrg(mafia_engine::action::actor::org::create_org::CreateOrg {
            name: mafia_engine::config::OrganizationName::NULL,
        }),
    )
    .unwrap();
    let org = match response {
        ActionResponse::CreateOrg(data) => data.id,
        _ => panic!("unexpected response"),
    };

    // The checked run refuses without a trace.
    assert_eq!(add_to_gc(&mut eng, 0, ActionActor::System, gc, org, false).unwrap_err(), ActionError::NotAPlayer);
    assert!(!get_gc(&eng, gc).unwrap().contains_member(org));

    // A run that carries the request out has already listed the organization.
    let mut ctx = mafia_engine::action::ActionContext::new();
    let r = AddToGroupchat { groupchat_id: gc, player_id: org, owner: false }.handle(&mut eng, &mut ctx, &ActionActor::System, 0, true);
    assert_eq!(r.unwrap_err(), ActionError::NotAPlayer);
    assert!(get_gc(&eng, gc).unwrap().contains_member(org));
    assert!(ctx.commands.is_empty());
}
