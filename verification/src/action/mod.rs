use vstd::prelude::*;

use crate::action::command::Command;
use crate::common::{ID, Time};

pub mod command;
pub mod engine;
pub mod chargepool;
pub mod ability;
pub mod add_ability;
pub mod add_passive;
pub mod give_passive;
pub mod create_and_give_passive;
pub mod add_notebook;
pub mod give_notebook;
pub mod create_and_give_notebook;
pub mod create_actor_links;
pub mod give_role;
pub mod add_player;
pub mod add_state;
pub mod add_states;
pub mod dispatch;
pub mod comms;
pub mod actor;

use crate::action::engine::null::{Null, NullResponse};
use crate::action::ability::remove_link::{RemoveLink, RemoveLinkResponse};
use crate::action::ability::clear_links::{ClearLinks, ClearLinksResponse};
use crate::action::add_ability::{AddAbility, AddAbilityResponse};
use crate::action::comms::update_contact_channels::{UpdateContactChannels, UpdateContactChannelsResponse};
use crate::action::actor::add_state::{AddState, AddStateResponse};
use crate::action::actor::remove_state::{RemoveState, RemoveStateResponse};
use crate::action::actor::player::kill::{Kill, KillResponse};
use crate::action::actor::player::revive::{Revive, ReviveResponse};
use crate::action::actor::player::schedule_revive::{ScheduleRevive, ScheduleReviveResponse};
use crate::action::comms::bug::update_bug_visibilities::{UpdateBugVisibilities, UpdateBugVisibilitiesResponse};
use crate::action::ability::create_and_give_ability::{CreateAndGiveAbility, CreateAndGiveAbilityResponse};
use crate::action::ability::give_ability::{GiveAbility, GiveAbilityResponse};
use crate::action::ability::clear_volatile_links::{ClearVolatileLinks, ClearVolatileLinksResponse};
use crate::action::chargepool::add_charge_pool::{AddChargePool, AddChargePoolResponse};
use crate::action::chargepool::add_charges::{AddCharges, AddChargesResponse};
use crate::action::chargepool::try_delete_charge_pool::{TryDeleteChargePool, TryDeleteChargePoolResponse};
use crate::action::ability::use_ability::{UseAbility, UseAbilityResponse};
use crate::action::ability::add_link::{AddLink, AddLinkResponse};
use crate::action::actor::org::change_org_leader::{ChangeOrgLeader, ChangeOrgLeaderResponse};
use crate::action::actor::org::add_to_org::{AddToOrg, AddToOrgResponse};
use crate::action::engine::schedule_job::{ScheduleJob, ScheduleJobResponse};
use crate::action::actor::player::schedule_kill::{ScheduleKill, ScheduleKillResponse};
use crate::action::actor::player::notebook_scheduled_kill::{NotebookScheduledKill, NotebookScheduledKillResponse};
use crate::action::add_player::{AddPlayer, AddPlayerResponse};
use crate::action::give_role::{GiveRole, GiveRoleResponse};
use crate::action::create_actor_links::{CreateActorLinks, CreateActorLinksResponse};
use crate::action::actor::purge_volatiles::{PurgeVolatiles, PurgeVolatilesResponse};
use crate::action::create_and_give_notebook::{CreateAndGiveNotebook, CreateAndGiveNotebookResponse};
use crate::action::give_notebook::{GiveNotebook, GiveNotebookResponse};
use crate::action::add_notebook::{AddNotebook, AddNotebookResponse};
use crate::action::ability::destroy_ability::{DestroyAbility, DestroyAbilityResponse};
use crate::action::comms::bug::try_update_bug_visibility::{TryUpdateBugVisibility, TryUpdateBugVisibilityResponse};
use crate::action::comms::bug::destroy_bug::{DestroyBug, DestroyBugResponse};
use crate::action::comms::bug::archive_bug::{ArchiveBug, ArchiveBugResponse};
use crate::action::comms::bug::create_bug::{CreateBug, CreateBugResponse};
use crate::action::actor::org::remove_from_org::{RemoveFromOrg, RemoveFromOrgResponse};
use crate::action::actor::org::create_org::{CreateOrg, CreateOrgResponse};
use crate::action::actor::org::create_and_give_org_ability::{CreateAndGiveOrgAbility, CreateAndGiveOrgAbilityResponse};
use crate::action::actor::org::give_org_ability::{GiveOrgAbility, GiveOrgAbilityResponse};
use crate::action::create_and_give_passive::{CreateAndGivePassive, CreateAndGivePassiveResponse};
use crate::action::give_passive::{GivePassive, GivePassiveResponse};
use crate::action::add_passive::{AddPassive, AddPassiveResponse};
use crate::action::comms::groupchat::remove_from_groupchat::{RemoveFromGroupchat, RemoveFromGroupchatResponse};
use crate::action::comms::groupchat::create_groupchat::{CreateGroupchat, CreateGroupchatResponse};
use crate::action::comms::groupchat::add_to_groupchat::{AddToGroupchat, AddToGroupchatResponse};
use crate::action::comms::groupchat::set_groupchat_owner::{SetGroupchatOwner, SetGroupchatOwnerResponse};
use crate::action::comms::lounge::leave_lounge::{LeaveLounge, LeaveLoungeResponse};
use crate::action::comms::lounge::remove_from_lounge::{RemoveFromLounge, RemoveFromLoungeResponse};
use crate::action::comms::lounge::create_lounge::{CreateLounge, CreateLoungeResponse};
use crate::action::comms::channel::send_message::{SendMessage, SendMessageResponse};
use crate::action::comms::channel::set_member::{SetMember, SetMemberResponse};
use crate::action::comms::channel::destroy_channel::{DestroyChannel, DestroyChannelResponse};
use crate::action::comms::channel::delete_channel::{DeleteChannel, DeleteChannelResponse};
use crate::action::comms::channel::set_loggable::{SetLoggable, SetLoggableResponse};
use crate::action::comms::channel::create_channel::{CreateChannel, CreateChannelResponse};
use crate::action::actor::org::use_org_ability::{UseOrgAbility, UseOrgAbilityResponse};
use crate::action::actor::org::system_use_org_ability::{SystemUseOrgAbility, SystemUseOrgAbilityResponse};

verus! {

/// An organization acting through one of its members.
#[derive(PartialEq, Eq, Structural, Debug, Clone, Copy)]
pub struct OrgActor {
    pub org_id: ID,
    pub player_id: ID,
}

/// Who asks for an action.
#[derive(PartialEq, Eq, Structural, Debug, Clone, Copy)]
pub enum ActionActor {
    System,
    Admin,
    Player(ID),
    Organization(OrgActor),
}

/// Why an action was refused.
#[derive(PartialEq, Eq, Structural, Debug, Clone, Copy)]
pub enum ActionError {
    RequiresSystem,
    RequiresAdminOrSystem,
    RequiresPlayer,
    RequiresPlayerOrSystem,
    RequiresPlayerOrOrg,
    ActorNotFound,
    NotAPlayer,
    NotAnOrg,
    AbilityNotFound,
    AbilityConfigNotFound,
    RoleConfigNotFound,
    ChargePoolNotFound,
    PassiveNotFound,
    NotebookNotFound,
    BugNotFound,
    ChannelNotFound,
    GroupchatNotFound,
    LoungeNotFound,
    TimePassed,
    NameNotUnique,
    ItemAlreadyOwned,
    PlayerNotInOrg,
    NotEnoughMembers,
    RequiredRolesNotPresent,
    PlayerIsNotLeader,
    AbilityCategoryBlocked,
    AbilityNotOwned,
    AbilityMismatch,
    AbilityNotEnoughCharges,
    NotAChannelMember,
    InsufficientPermissions,
    DisplayNotOwned,
    NotTheOwner,
    CannotContact,
    PlayerNotInLounge,
    PlayerNotInGroupchat,
    PlayerAlreadyInOrg,
    NoLeadership,
}

impl ActionActor {
    pub open spec fn is_system_spec(self) -> bool {
        self is System
    }

    pub open spec fn is_admin_or_system(self) -> bool {
        self is System || self is Admin
    }

    pub open spec fn is_player_or_system(self) -> bool {
        self is System || self is Player
    }

    pub open spec fn is_player_or_org(self) -> bool {
        self is Player || self is Organization
    }

    /// The actor the request acts for: a player, or an organization.
    pub open spec fn acting_id(self) -> Option<ID> {
        match self {
            ActionActor::Player(id) => Some(id),
            ActionActor::Organization(o) => Some(o.org_id),
            _ => None,
        }
    }

    pub fn require_system(&self) -> (r: Result<(), ActionError>)
        ensures
            r == if self is System { Ok(()) } else { Err::<(), ActionError>(ActionError::RequiresSystem) },
    {
        match self {
            ActionActor::System => Ok(()),
            _ => Err(ActionError::RequiresSystem),
        }
    }

    pub fn admin_or_system(&self) -> (r: Result<(), ActionError>)
        ensures
            r == if self.is_admin_or_system() { Ok(()) } else { Err::<(), ActionError>(ActionError::RequiresAdminOrSystem) },
    {
        match self {
            ActionActor::System => Ok(()),
            ActionActor::Admin => Ok(()),
            _ => Err(ActionError::RequiresAdminOrSystem),
        }
    }

    pub fn player_only(&self) -> (r: Result<(), ActionError>)
        ensures
            r == if self is Player { Ok(()) } else { Err::<(), ActionError>(ActionError::RequiresPlayer) },
    {
        match self {
            ActionActor::Player(_) => Ok(()),
            _ => Err(ActionError::RequiresPlayer),
        }
    }

    pub fn player_or_system(&self) -> (r: Result<(), ActionError>)
        ensures
            r == if self.is_player_or_system() { Ok(()) } else { Err::<(), ActionError>(ActionError::RequiresPlayerOrSystem) },
    {
        match self {
            ActionActor::System => Ok(()),
            ActionActor::Player(_) => Ok(()),
            _ => Err(ActionError::RequiresPlayerOrSystem),
        }
    }

    /// Players and organizations only.
    pub fn require_not_system(&self) -> (r: Result<(), ActionError>)
        ensures
            r == if self.is_player_or_org() { Ok(()) } else { Err::<(), ActionError>(ActionError::RequiresPlayerOrOrg) },
    {
        match self {
            ActionActor::Player(_) => Ok(()),
            ActionActor::Organization(_) => Ok(()),
            _ => Err(ActionError::RequiresPlayerOrOrg),
        }
    }

    pub fn is_player(&self) -> (b: bool)
        ensures
            b == (*self is Player),
    {
        match self {
            ActionActor::Player(_) => true,
            _ => false,
        }
    }
}

/// A command for the frontend, for one recipient (or for everyone), at a time.
#[derive(Debug)]
pub struct CommandPacket {
    pub cmd: Command,
    pub recipient: Option<ID>,
    pub timestamp: Time,
}

/// What handling one request produces besides its response: the frontend commands.
#[derive(Debug)]
pub struct ActionContext {
    pub commands: Vec<CommandPacket>,
}

impl ActionContext {
    pub fn new() -> (c: Self)
        ensures
            c.commands@ == Seq::<CommandPacket>::empty(),
    {
        ActionContext { commands: Vec::new() }
    }

    pub fn push_cmd(&mut self, cmd: Command, recipient: Option<ID>, timestamp: Time)
        ensures
            final(self).commands@ == old(self).commands@.push(CommandPacket { cmd, recipient, timestamp }),
    {
        self.commands.push(CommandPacket { cmd, recipient, timestamp });
    }
}

/// What an action answers, one variant per action.
#[derive(Debug)]
pub enum ActionResponse {
    Null(NullResponse),
    AddChargePool(AddChargePoolResponse),
    AddCharges(AddChargesResponse),
    TryDeleteChargePool(TryDeleteChargePoolResponse),
    RemoveLink(RemoveLinkResponse),
    ClearLinks(ClearLinksResponse),
    ClearVolatileLinks(ClearVolatileLinksResponse),
    GiveAbility(GiveAbilityResponse),
    AddAbility(AddAbilityResponse),
    CreateAndGiveAbility(CreateAndGiveAbilityResponse),
    UpdateContactChannels(UpdateContactChannelsResponse),
    UpdateBugVisibilities(UpdateBugVisibilitiesResponse),
    AddState(AddStateResponse),
    RemoveState(RemoveStateResponse),
    Kill(KillResponse),
    Revive(ReviveResponse),
    ScheduleRevive(ScheduleReviveResponse),
    UseAbility(UseAbilityResponse),
    AddLink(AddLinkResponse),
    ChangeOrgLeader(ChangeOrgLeaderResponse),
    AddToOrg(AddToOrgResponse),
    PlainAddState(crate::action::add_state::AddStateResponse),
    CheckedAddState(crate::action::add_states::AddStateResponse),
    ScheduleJob(ScheduleJobResponse),
    ScheduleKill(ScheduleKillResponse),
    NotebookScheduledKill(NotebookScheduledKillResponse),
    AddPlayer(AddPlayerResponse),
    GiveRole(GiveRoleResponse),
    CreateActorLinks(CreateActorLinksResponse),
    PurgeVolatiles(PurgeVolatilesResponse),
    CreateAndGiveNotebook(CreateAndGiveNotebookResponse),
    GiveNotebook(GiveNotebookResponse),
    AddNotebook(AddNotebookResponse),
    DestroyAbility(DestroyAbilityResponse),
    TryUpdateBugVisibility(TryUpdateBugVisibilityResponse),
    DestroyBug(DestroyBugResponse),
    ArchiveBug(ArchiveBugResponse),
    CreateBug(CreateBugResponse),
    RemoveFromOrg(RemoveFromOrgResponse),
    CreateOrg(CreateOrgResponse),
    CreateAndGiveOrgAbility(CreateAndGiveOrgAbilityResponse),
    GiveOrgAbility(GiveOrgAbilityResponse),
    CreateAndGivePassive(CreateAndGivePassiveResponse),
    GivePassive(GivePassiveResponse),
    AddPassive(AddPassiveResponse),
    RemoveFromGroupchat(RemoveFromGroupchatResponse),
    CreateGroupchat(CreateGroupchatResponse),
    AddToGroupchat(AddToGroupchatResponse),
    SetGroupchatOwner(SetGroupchatOwnerResponse),
    LeaveLounge(LeaveLoungeResponse),
    RemoveFromLounge(RemoveFromLoungeResponse),
    CreateLounge(CreateLoungeResponse),
    SendMessage(SendMessageResponse),
    SetMember(SetMemberResponse),
    DestroyChannel(DestroyChannelResponse),
    DeleteChannel(DeleteChannelResponse),
    SetLoggable(SetLoggableResponse),
    CreateChannel(CreateChannelResponse),
    UseOrgAbility(UseOrgAbilityResponse),
    SystemUseOrgAbility(SystemUseOrgAbilityResponse),
}

pub type ActionResult = Result<ActionResponse, ActionError>;

/// Every action, as a request payload.
#[derive(Debug)]
pub enum Action {
    Null(Null),
    AddChargePool(AddChargePool),
    AddCharges(AddCharges),
    TryDeleteChargePool(TryDeleteChargePool),
    RemoveLink(RemoveLink),
    ClearLinks(ClearLinks),
    ClearVolatileLinks(ClearVolatileLinks),
    GiveAbility(GiveAbility),
    AddAbility(AddAbility),
    CreateAndGiveAbility(CreateAndGiveAbility),
    UpdateContactChannels(UpdateContactChannels),
    UpdateBugVisibilities(UpdateBugVisibilities),
    AddState(AddState),
    RemoveState(RemoveState),
    Kill(Kill),
    Revive(Revive),
    ScheduleRevive(ScheduleRevive),
    UseAbility(UseAbility),
    AddLink(AddLink),
    ChangeOrgLeader(ChangeOrgLeader),
    AddToOrg(AddToOrg),
    PlainAddState(crate::action::add_state::AddState),
    CheckedAddState(crate::action::add_states::AddState),
    ScheduleJob(ScheduleJob),
    ScheduleKill(ScheduleKill),
    NotebookScheduledKill(NotebookScheduledKill),
    AddPlayer(AddPlayer),
    GiveRole(GiveRole),
    CreateActorLinks(CreateActorLinks),
    PurgeVolatiles(PurgeVolatiles),
    CreateAndGiveNotebook(CreateAndGiveNotebook),
    GiveNotebook(GiveNotebook),
    AddNotebook(AddNotebook),
    DestroyAbility(DestroyAbility),
    TryUpdateBugVisibility(TryUpdateBugVisibility),
    DestroyBug(DestroyBug),
    ArchiveBug(ArchiveBug),
    CreateBug(CreateBug),
    RemoveFromOrg(RemoveFromOrg),
    CreateOrg(CreateOrg),
    CreateAndGiveOrgAbility(CreateAndGiveOrgAbility),
    GiveOrgAbility(GiveOrgAbility),
    CreateAndGivePassive(CreateAndGivePassive),
    GivePassive(GivePassive),
    AddPassive(AddPassive),
    RemoveFromGroupchat(RemoveFromGroupchat),
    CreateGroupchat(CreateGroupchat),
    AddToGroupchat(AddToGroupchat),
    SetGroupchatOwner(SetGroupchatOwner),
    LeaveLounge(LeaveLounge),
    RemoveFromLounge(RemoveFromLounge),
    CreateLounge(CreateLounge),
    SendMessage(SendMessage),
    SetMember(SetMember),
    DestroyChannel(DestroyChannel),
    DeleteChannel(DeleteChannel),
    SetLoggable(SetLoggable),
    CreateChannel(CreateChannel),
    UseOrgAbility(UseOrgAbility),
    SystemUseOrgAbility(SystemUseOrgAbility),
}

/// A request: who acts, when, and what it asks for.
#[derive(Debug)]
pub struct ActionRequest {
    pub actor: ActionActor,
    pub timestamp: Time,
    pub payload: Action,
}

} // verus!
