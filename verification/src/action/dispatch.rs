use vstd::prelude::*;

use crate::ability::AbilityInterface;
use crate::action::actor::org::system_use_org_ability::org_settings_hold;
use crate::action::actor::purge_volatiles::holdings_exist;
use crate::action::add_player::pool_names_defined;
use crate::action::comms::update_contact_channels::{contact_channels_hold, lemma_hold_preserved};
use crate::action::{Action, ActionActor, ActionContext, ActionError, ActionRequest, ActionResponse, ActionResult, CommandPacket};
use crate::common::{ID, Version};
use crate::action::actor::player::kill::kill_refusal;
use crate::engine::{lemma_same_actor_types, same_actor_types, Engine};

verus! {

impl Action {
    /// What the engine must satisfy for the action to run without crashing (beyond the
    /// facts every engine keeps).
    pub open spec fn pre(&self, e: Engine) -> bool {
        match self {
            Action::Null(_) => true,
            Action::AddLink(_) => true,
            Action::AddChargePool(_) => true,
            Action::AddCharges(_) => true,
            Action::TryDeleteChargePool(_) => true,
            Action::RemoveLink(_) => true,
            Action::ClearLinks(_) => true,
            Action::ClearVolatileLinks(_) => true,
            Action::GiveAbility(a) => a.pools_ready(e),
            Action::AddAbility(_) => true,
            Action::CreateAndGiveAbility(a) => a.pools_ready(e),
            Action::UpdateContactChannels(a) => contact_channels_hold(e, a.player_id),
            Action::UpdateBugVisibilities(_) => true,
            Action::AddState(a) => contact_channels_hold(e, a.actor_id),
            Action::RemoveState(a) => contact_channels_hold(e, a.actor_id),
            Action::Kill(a) => contact_channels_hold(e, a.target_id),
            Action::Revive(a) => contact_channels_hold(e, a.target_id),
            Action::ScheduleRevive(_) => true,
            Action::UseAbility(a) => a.ability_args.ready(e),
            Action::ChangeOrgLeader(_) => true,
            Action::AddToOrg(_) => true,
            Action::PlainAddState(_) => true,
            Action::CheckedAddState(_) => true,
            Action::ScheduleJob(_) => true,
            Action::ScheduleKill(_) => true,
            Action::NotebookScheduledKill(a) => contact_channels_hold(e, a.kill.target_id),
            Action::AddPlayer(a) => !e.world.name_taken(a.true_name@) ==> pool_names_defined(e.config),
            Action::GiveRole(a) => a.ready(e),
            Action::CreateActorLinks(_) => true,
            Action::PurgeVolatiles(a) => holdings_exist(e, a.actor_id),
            Action::CreateAndGiveNotebook(_) => true,
            Action::GiveNotebook(_) => true,
            Action::AddNotebook(_) => true,
            Action::DestroyAbility(_) => true,
            Action::TryUpdateBugVisibility(_) => true,
            Action::DestroyBug(_) => true,
            Action::ArchiveBug(_) => true,
            Action::CreateBug(_) => true,
            Action::RemoveFromOrg(_) => true,
            Action::CreateOrg(a) => a.configured(e),
            Action::CreateAndGiveOrgAbility(a) => a.pools_ready(e),
            Action::GiveOrgAbility(a) => a.give().pools_ready(e),
            Action::CreateAndGivePassive(_) => true,
            Action::GivePassive(_) => true,
            Action::AddPassive(_) => true,
            Action::RemoveFromGroupchat(_) => true,
            Action::CreateGroupchat(_) => true,
            Action::AddToGroupchat(_) => true,
            Action::SetGroupchatOwner(_) => true,
            Action::LeaveLounge(_) => true,
            Action::RemoveFromLounge(_) => true,
            Action::CreateLounge(_) => true,
            Action::SendMessage(_) => true,
            Action::SetMember(_) => true,
            Action::DestroyChannel(_) => true,
            Action::DeleteChannel(_) => true,
            Action::SetLoggable(_) => true,
            Action::CreateChannel(_) => true,
            Action::UseOrgAbility(a) => org_settings_hold(e, a.org_id, a.ability_id) && a.ability_args.ready(e),
            Action::SystemUseOrgAbility(a) => org_settings_hold(e, a.org_id, a.ability_id) && a.ability_args.ready(e),
        }
    }

    /// Why the action refuses a request from `actor` on engine `e` (in a mutation pass
    /// when `mutate`): by the action's own rules where it states them, else by the kind of
    /// actor it accepts.  A refusal here is the answer the handler gives.
    pub open spec fn refusal(&self, e: Engine, actor: ActionActor, mutate: bool) -> Option<ActionError> {
        let system = if actor is System { None } else { Some(ActionError::RequiresSystem) };
        let admin = if actor.is_admin_or_system() { None } else { Some(ActionError::RequiresAdminOrSystem) };
        let player = if actor is Player { None } else { Some(ActionError::RequiresPlayer) };
        match self {
            Action::Null(_) => None,
            Action::AddLink(_) => system,
            Action::AddChargePool(_) => system,
            Action::AddCharges(_) => system,
            Action::TryDeleteChargePool(_) => admin,
            Action::RemoveLink(_) => system,
            Action::ClearLinks(_) => system,
            Action::ClearVolatileLinks(_) => system,
            Action::GiveAbility(a) => a.refusal(e, actor, mutate),
            Action::AddAbility(_) => system,
            Action::CreateAndGiveAbility(a) => a.refusal(e, actor, mutate),
            Action::UpdateContactChannels(a) => a.refusal(e, actor),
            Action::UpdateBugVisibilities(_) => admin,
            Action::AddState(a) => a.refusal(e, actor),
            Action::RemoveState(a) => a.refusal(e, actor),
            Action::Kill(a) => kill_refusal(a.target_id, e, actor),
            Action::Revive(a) => a.refusal(e, actor),
            Action::ScheduleRevive(_) => system,
            Action::UseAbility(a) => a.refusal(e, actor, mutate),
            Action::ChangeOrgLeader(a) => a.refusal(e, actor),
            Action::AddToOrg(a) => a.refusal(e, actor),
            Action::PlainAddState(_) => system,
            Action::CheckedAddState(_) => system,
            Action::ScheduleJob(_) => system,
            Action::ScheduleKill(_) => system,
            Action::NotebookScheduledKill(a) => kill_refusal(a.kill.target_id, e, actor),
            Action::AddPlayer(a) => a.refusal(e, actor, mutate),
            Action::GiveRole(a) => a.refusal(e, actor, mutate),
            Action::CreateActorLinks(_) => system,
            Action::PurgeVolatiles(_) => system,
            Action::CreateAndGiveNotebook(_) => system,
            Action::GiveNotebook(a) => a.refusal(e, actor),
            Action::AddNotebook(_) => system,
            Action::DestroyAbility(a) => a.refusal(e, actor, mutate),
            Action::TryUpdateBugVisibility(_) => admin,
            Action::DestroyBug(_) => admin,
            Action::ArchiveBug(_) => admin,
            Action::CreateBug(a) => a.refusal(e, actor),
            Action::RemoveFromOrg(a) => a.refusal(e, actor),
            Action::CreateOrg(_) => system,
            Action::CreateAndGiveOrgAbility(a) => a.refusal(e, actor, mutate),
            Action::GiveOrgAbility(a) => a.refusal(e, actor, mutate),
            Action::CreateAndGivePassive(_) => system,
            Action::GivePassive(a) => a.refusal(e, actor),
            Action::AddPassive(_) => system,
            Action::RemoveFromGroupchat(a) => a.refusal(e, actor),
            Action::CreateGroupchat(_) => system,
            Action::AddToGroupchat(a) => a.refusal(e, actor),
            Action::SetGroupchatOwner(a) => a.refusal(e, actor),
            Action::LeaveLounge(_) => player,
            Action::RemoveFromLounge(a) => a.refusal(e, actor),
            Action::CreateLounge(a) => a.refusal(e, actor),
            Action::SendMessage(a) => a.refusal(e, actor),
            Action::SetMember(a) => a.refusal(e, actor),
            Action::DestroyChannel(_) => system,
            Action::DeleteChannel(_) => system,
            Action::SetLoggable(_) => admin,
            Action::CreateChannel(_) => system,
            Action::UseOrgAbility(_) => player,
            Action::SystemUseOrgAbility(_) => system,
        }
    }

    /// The answer the action's handler gives to a request from `actor`, from the engine
    /// before (`e0`) and after (`e1`) it runs (in a mutation pass when `mutate`).
    pub open spec fn answer(&self, e0: Engine, e1: Engine, actor: ActionActor, mutate: bool) -> ActionResult {
        match self {
            Action::Null(a) => a.answer(e0, e1, actor, mutate),
            Action::AddLink(a) => a.answer(e0, e1, actor, mutate),
            Action::AddChargePool(a) => a.answer(e0, e1, actor, mutate),
            Action::AddCharges(a) => a.answer(e0, e1, actor, mutate),
            Action::TryDeleteChargePool(a) => a.answer(e0, e1, actor, mutate),
            Action::RemoveLink(a) => a.answer(e0, e1, actor, mutate),
            Action::ClearLinks(a) => a.answer(e0, e1, actor, mutate),
            Action::ClearVolatileLinks(a) => a.answer(e0, e1, actor, mutate),
            Action::GiveAbility(a) => a.answer(e0, e1, actor, mutate),
            Action::AddAbility(a) => a.answer(e0, e1, actor, mutate),
            Action::CreateAndGiveAbility(a) => a.answer(e0, e1, actor, mutate),
            Action::UpdateContactChannels(a) => a.answer(e0, e1, actor, mutate),
            Action::UpdateBugVisibilities(a) => a.answer(e0, e1, actor, mutate),
            Action::AddState(a) => a.answer(e0, e1, actor, mutate),
            Action::RemoveState(a) => a.answer(e0, e1, actor, mutate),
            Action::Kill(a) => a.answer(e0, e1, actor, mutate),
            Action::Revive(a) => a.answer(e0, e1, actor, mutate),
            Action::ScheduleRevive(a) => a.answer(e0, e1, actor, mutate),
            Action::UseAbility(a) => a.answer(e0, e1, actor, mutate),
            Action::ChangeOrgLeader(a) => a.answer(e0, e1, actor, mutate),
            Action::AddToOrg(a) => a.answer(e0, e1, actor, mutate),
            Action::PlainAddState(a) => a.answer(e0, e1, actor, mutate),
            Action::CheckedAddState(a) => a.answer(e0, e1, actor, mutate),
            Action::ScheduleJob(a) => a.answer(e0, e1, actor, mutate),
            Action::ScheduleKill(a) => a.answer(e0, e1, actor, mutate),
            Action::NotebookScheduledKill(a) => a.answer(e0, e1, actor, mutate),
            Action::AddPlayer(a) => a.answer(e0, e1, actor, mutate),
            Action::GiveRole(a) => a.answer(e0, e1, actor, mutate),
            Action::CreateActorLinks(a) => a.answer(e0, e1, actor, mutate),
            Action::PurgeVolatiles(a) => a.answer(e0, e1, actor, mutate),
            Action::CreateAndGiveNotebook(a) => a.answer(e0, e1, actor, mutate),
            Action::GiveNotebook(a) => a.answer(e0, e1, actor, mutate),
            Action::AddNotebook(a) => a.answer(e0, e1, actor, mutate),
            Action::DestroyAbility(a) => a.answer(e0, e1, actor, mutate),
            Action::TryUpdateBugVisibility(a) => a.answer(e0, e1, actor, mutate),
            Action::DestroyBug(a) => a.answer(e0, e1, actor, mutate),
            Action::ArchiveBug(a) => a.answer(e0, e1, actor, mutate),
            Action::CreateBug(a) => a.answer(e0, e1, actor, mutate),
            Action::RemoveFromOrg(a) => a.answer(e0, e1, actor, mutate),
            Action::CreateOrg(a) => a.answer(e0, e1, actor, mutate),
            Action::CreateAndGiveOrgAbility(a) => a.answer(e0, e1, actor, mutate),
            Action::GiveOrgAbility(a) => a.answer(e0, e1, actor, mutate),
            Action::CreateAndGivePassive(a) => a.answer(e0, e1, actor, mutate),
            Action::GivePassive(a) => a.answer(e0, e1, actor, mutate),
            Action::AddPassive(a) => a.answer(e0, e1, actor, mutate),
            Action::RemoveFromGroupchat(a) => a.answer(e0, e1, actor, mutate),
            Action::CreateGroupchat(a) => a.answer(e0, e1, actor, mutate),
            Action::AddToGroupchat(a) => a.answer(e0, e1, actor, mutate),
            Action::SetGroupchatOwner(a) => a.answer(e0, e1, actor, mutate),
            Action::LeaveLounge(a) => a.answer(e0, e1, actor, mutate),
            Action::RemoveFromLounge(a) => a.answer(e0, e1, actor, mutate),
            Action::CreateLounge(a) => a.answer(e0, e1, actor, mutate),
            Action::SendMessage(a) => a.answer(e0, e1, actor, mutate),
            Action::SetMember(a) => a.answer(e0, e1, actor, mutate),
            Action::DestroyChannel(a) => a.answer(e0, e1, actor, mutate),
            Action::DeleteChannel(a) => a.answer(e0, e1, actor, mutate),
            Action::SetLoggable(a) => a.answer(e0, e1, actor, mutate),
            Action::CreateChannel(a) => a.answer(e0, e1, actor, mutate),
            Action::UseOrgAbility(a) => a.answer(e0, e1, actor, mutate),
            Action::SystemUseOrgAbility(a) => a.answer(e0, e1, actor, mutate),
        }
    }

    /// What the action's handler does besides answering `r`: its effect on the engine (from
    /// `e0` to `e1`) and on the frontend commands (from `c0` to `c1`).
    pub open spec fn effect(
        &self,
        e0: Engine,
        e1: Engine,
        c0: Seq<CommandPacket>,
        c1: Seq<CommandPacket>,
        actor: ActionActor,
        mutate: bool,
        r: ActionResult,
    ) -> bool {
        match self {
            Action::Null(a) => a.effect(e0, e1, c0, c1, actor, mutate, r),
            Action::AddLink(a) => a.effect(e0, e1, c0, c1, actor, mutate, r),
            Action::AddChargePool(a) => a.effect(e0, e1, c0, c1, actor, mutate, r),
            Action::AddCharges(a) => a.effect(e0, e1, c0, c1, actor, mutate, r),
            Action::TryDeleteChargePool(a) => a.effect(e0, e1, c0, c1, actor, mutate, r),
            Action::RemoveLink(a) => a.effect(e0, e1, c0, c1, actor, mutate, r),
            Action::ClearLinks(a) => a.effect(e0, e1, c0, c1, actor, mutate, r),
            Action::ClearVolatileLinks(a) => a.effect(e0, e1, c0, c1, actor, mutate, r),
            Action::GiveAbility(a) => a.effect(e0, e1, c0, c1, actor, mutate, r),
            Action::AddAbility(a) => a.effect(e0, e1, c0, c1, actor, mutate, r),
            Action::CreateAndGiveAbility(a) => a.effect(e0, e1, c0, c1, actor, mutate, r),
            Action::UpdateContactChannels(a) => a.effect(e0, e1, c0, c1, actor, mutate, r),
            Action::UpdateBugVisibilities(a) => a.effect(e0, e1, c0, c1, actor, mutate, r),
            Action::AddState(a) => a.effect(e0, e1, c0, c1, actor, mutate, r),
            Action::RemoveState(a) => a.effect(e0, e1, c0, c1, actor, mutate, r),
            Action::Kill(a) => a.effect(e0, e1, c0, c1, actor, mutate, r),
            Action::Revive(a) => a.effect(e0, e1, c0, c1, actor, mutate, r),
            Action::ScheduleRevive(a) => a.effect(e0, e1, c0, c1, actor, mutate, r),
            Action::UseAbility(a) => a.effect(e0, e1, c0, c1, actor, mutate, r),
            Action::ChangeOrgLeader(a) => a.effect(e0, e1, c0, c1, actor, mutate, r),
            Action::AddToOrg(a) => a.effect(e0, e1, c0, c1, actor, mutate, r),
            Action::PlainAddState(a) => a.effect(e0, e1, c0, c1, actor, mutate, r),
            Action::CheckedAddState(a) => a.effect(e0, e1, c0, c1, actor, mutate, r),
            Action::ScheduleJob(a) => a.effect(e0, e1, c0, c1, actor, mutate, r),
            Action::ScheduleKill(a) => a.effect(e0, e1, c0, c1, actor, mutate, r),
            Action::NotebookScheduledKill(a) => a.effect(e0, e1, c0, c1, actor, mutate, r),
            Action::AddPlayer(a) => a.effect(e0, e1, c0, c1, actor, mutate, r),
            Action::GiveRole(a) => a.effect(e0, e1, c0, c1, actor, mutate, r),
            Action::CreateActorLinks(a) => a.effect(e0, e1, c0, c1, actor, mutate, r),
            Action::PurgeVolatiles(a) => a.effect(e0, e1, c0, c1, actor, mutate, r),
            Action::CreateAndGiveNotebook(a) => a.effect(e0, e1, c0, c1, actor, mutate, r),
            Action::GiveNotebook(a) => a.effect(e0, e1, c0, c1, actor, mutate, r),
            Action::AddNotebook(a) => a.effect(e0, e1, c0, c1, actor, mutate, r),
            Action::DestroyAbility(a) => a.effect(e0, e1, c0, c1, actor, mutate, r),
            Action::TryUpdateBugVisibility(a) => a.effect(e0, e1, c0, c1, actor, mutate, r),
            Action::DestroyBug(a) => a.effect(e0, e1, c0, c1, actor, mutate, r),
            Action::ArchiveBug(a) => a.effect(e0, e1, c0, c1, actor, mutate, r),
            Action::CreateBug(a) => a.effect(e0, e1, c0, c1, actor, mutate, r),
            Action::RemoveFromOrg(a) => a.effect(e0, e1, c0, c1, actor, mutate, r),
            Action::CreateOrg(a) => a.effect(e0, e1, c0, c1, actor, mutate, r),
            Action::CreateAndGiveOrgAbility(a) => a.effect(e0, e1, c0, c1, actor, mutate, r),
            Action::GiveOrgAbility(a) => a.effect(e0, e1, c0, c1, actor, mutate, r),
            Action::CreateAndGivePassive(a) => a.effect(e0, e1, c0, c1, actor, mutate, r),
            Action::GivePassive(a) => a.effect(e0, e1, c0, c1, actor, mutate, r),
            Action::AddPassive(a) => a.effect(e0, e1, c0, c1, actor, mutate, r),
            Action::RemoveFromGroupchat(a) => a.effect(e0, e1, c0, c1, actor, mutate, r),
            Action::CreateGroupchat(a) => a.effect(e0, e1, c0, c1, actor, mutate, r),
            Action::AddToGroupchat(a) => a.effect(e0, e1, c0, c1, actor, mutate, r),
            Action::SetGroupchatOwner(a) => a.effect(e0, e1, c0, c1, actor, mutate, r),
            Action::LeaveLounge(a) => a.effect(e0, e1, c0, c1, actor, mutate, r),
            Action::RemoveFromLounge(a) => a.effect(e0, e1, c0, c1, actor, mutate, r),
            Action::CreateLounge(a) => a.effect(e0, e1, c0, c1, actor, mutate, r),
            Action::SendMessage(a) => a.effect(e0, e1, c0, c1, actor, mutate, r),
            Action::SetMember(a) => a.effect(e0, e1, c0, c1, actor, mutate, r),
            Action::DestroyChannel(a) => a.effect(e0, e1, c0, c1, actor, mutate, r),
            Action::DeleteChannel(a) => a.effect(e0, e1, c0, c1, actor, mutate, r),
            Action::SetLoggable(a) => a.effect(e0, e1, c0, c1, actor, mutate, r),
            Action::CreateChannel(a) => a.effect(e0, e1, c0, c1, actor, mutate, r),
            Action::UseOrgAbility(a) => a.effect(e0, e1, c0, c1, actor, mutate, r),
            Action::SystemUseOrgAbility(a) => a.effect(e0, e1, c0, c1, actor, mutate, r),
        }
    }

    /// Runs the action's handler: a dry run (`mutate` false) checks it and leaves the engine
    /// as it was; a mutation pass carries it out.
    #[verifier::rlimit(40)]
    pub fn handle(
        &mut self,
        eng: &mut Engine,
        ctx: &mut ActionContext,
        actor: &ActionActor,
        version: Version,
        mutate: bool,
    ) -> (r: ActionResult)
        requires
            old(eng).wf(),
            old(self).pre(*old(eng)),
        ensures
            final(eng).wf(),
            final(eng).config == old(eng).config,
            final(eng).time == old(eng).time,
            !mutate ==> final(eng).unchanged(*old(eng)),
            !mutate ==> *final(self) == *old(self),
            old(self).refusal(*old(eng), *actor, mutate) matches Some(err) ==> r == Err::<ActionResponse, ActionError>(err),
            r == old(self).answer(*old(eng), *final(eng), *actor, mutate),
            old(self).effect(*old(eng), *final(eng), old(ctx).commands@, final(ctx).commands@, *actor, mutate, r),
    {
        match self {
            Action::Null(a) => a.handle(eng, ctx, actor, version, mutate),
            Action::AddLink(a) => a.handle(eng, ctx, actor, version, mutate),
            Action::AddChargePool(a) => a.handle(eng, ctx, actor, version, mutate),
            Action::AddCharges(a) => a.handle(eng, ctx, actor, version, mutate),
            Action::TryDeleteChargePool(a) => a.handle(eng, ctx, actor, version, mutate),
            Action::RemoveLink(a) => a.handle(eng, ctx, actor, version, mutate),
            Action::ClearLinks(a) => a.handle(eng, ctx, actor, version, mutate),
            Action::ClearVolatileLinks(a) => a.handle(eng, ctx, actor, version, mutate),
            Action::GiveAbility(a) => a.handle(eng, ctx, actor, version, mutate),
            Action::AddAbility(a) => a.handle(eng, ctx, actor, version, mutate),
            Action::CreateAndGiveAbility(a) => a.handle(eng, ctx, actor, version, mutate),
            Action::UpdateContactChannels(a) => a.handle(eng, ctx, actor, version, mutate),
            Action::UpdateBugVisibilities(a) => a.handle(eng, ctx, actor, version, mutate),
            Action::AddState(a) => a.handle(eng, ctx, actor, version, mutate),
            Action::RemoveState(a) => a.handle(eng, ctx, actor, version, mutate),
            Action::Kill(a) => a.handle(eng, ctx, actor, version, mutate),
            Action::Revive(a) => a.handle(eng, ctx, actor, version, mutate),
            Action::ScheduleRevive(a) => a.handle(eng, ctx, actor, version, mutate),
            Action::UseAbility(a) => a.handle(eng, ctx, actor, version, mutate),
            Action::ChangeOrgLeader(a) => a.handle(eng, ctx, actor, version, mutate),
            Action::AddToOrg(a) => a.handle(eng, ctx, actor, version, mutate),
            Action::PlainAddState(a) => a.handle(eng, ctx, actor, version, mutate),
            Action::CheckedAddState(a) => {
                a.validate(eng, actor)?;
                if mutate {
                    let step = crate::action::add_states::AddState { actor_id: a.actor_id, state: a.state };
                    Ok(step.execute(eng, actor))
                } else {
                    Ok(ActionResponse::CheckedAddState(crate::action::add_states::AddStateResponse {}))
                }
            },
            Action::ScheduleJob(a) => a.handle(eng, ctx, actor, version, mutate),
            Action::ScheduleKill(a) => a.handle(eng, ctx, actor, version, mutate),
            Action::NotebookScheduledKill(a) => a.handle(eng, ctx, actor, version, mutate),
            Action::AddPlayer(a) => a.handle(eng, ctx, actor, version, mutate),
            Action::GiveRole(a) => a.handle(eng, ctx, actor, version, mutate),
            Action::CreateActorLinks(a) => a.handle(eng, ctx, actor, version, mutate),
            Action::PurgeVolatiles(a) => a.handle(eng, ctx, actor, version, mutate),
            Action::CreateAndGiveNotebook(a) => a.handle(eng, ctx, actor, version, mutate),
            Action::GiveNotebook(a) => a.handle(eng, ctx, actor, version, mutate),
            Action::AddNotebook(a) => a.handle(eng, ctx, actor, version, mutate),
            Action::DestroyAbility(a) => a.handle(eng, ctx, actor, version, mutate),
            Action::TryUpdateBugVisibility(a) => a.handle(eng, ctx, actor, version, mutate),
            Action::DestroyBug(a) => a.handle(eng, ctx, actor, version, mutate),
            Action::ArchiveBug(a) => a.handle(eng, ctx, actor, version, mutate),
            Action::CreateBug(a) => a.handle(eng, ctx, actor, version, mutate),
            Action::RemoveFromOrg(a) => a.handle(eng, ctx, actor, version, mutate),
            Action::CreateOrg(a) => a.handle(eng, ctx, actor, version, mutate),
            Action::CreateAndGiveOrgAbility(a) => a.handle(eng, ctx, actor, version, mutate),
            Action::GiveOrgAbility(a) => a.handle(eng, ctx, actor, version, mutate),
            Action::CreateAndGivePassive(a) => a.handle(eng, ctx, actor, version, mutate),
            Action::GivePassive(a) => a.handle(eng, ctx, actor, version, mutate),
            Action::AddPassive(a) => a.handle(eng, ctx, actor, version, mutate),
            Action::RemoveFromGroupchat(a) => a.handle(eng, ctx, actor, version, mutate),
            Action::CreateGroupchat(a) => a.handle(eng, ctx, actor, version, mutate),
            Action::AddToGroupchat(a) => a.handle(eng, ctx, actor, version, mutate),
            Action::SetGroupchatOwner(a) => a.handle(eng, ctx, actor, version, mutate),
            Action::LeaveLounge(a) => a.handle(eng, ctx, actor, version, mutate),
            Action::RemoveFromLounge(a) => a.handle(eng, ctx, actor, version, mutate),
            Action::CreateLounge(a) => a.handle(eng, ctx, actor, version, mutate),
            Action::SendMessage(a) => a.handle(eng, ctx, actor, version, mutate),
            Action::SetMember(a) => a.handle(eng, ctx, actor, version, mutate),
            Action::DestroyChannel(a) => a.handle(eng, ctx, actor, version, mutate),
            Action::DeleteChannel(a) => a.handle(eng, ctx, actor, version, mutate),
            Action::SetLoggable(a) => a.handle(eng, ctx, actor, version, mutate),
            Action::CreateChannel(a) => a.handle(eng, ctx, actor, version, mutate),
            Action::UseOrgAbility(a) => a.handle(eng, ctx, actor, version, mutate),
            Action::SystemUseOrgAbility(a) => a.handle(eng, ctx, actor, version, mutate),
        }
    }
}

/// Whether an action can run depends only on what a dry run leaves as it was.
pub proof fn lemma_pre_unchanged(a: Action, e0: Engine, e1: Engine)
    requires
        e1.unchanged(e0),
        a.pre(e0),
    ensures
        a.pre(e1),
{
    assert(same_actor_types(e0.world.actors@, e1.world.actors@));
    lemma_same_actor_types(e0.world.actors@, e1.world.actors@);
    assert forall|p: ID| contact_channels_hold(e0, p) implies #[trigger] contact_channels_hold(e1, p) by {
        lemma_hold_preserved(e0, e1, p);
    }
    if let Action::AddPlayer(p) = a {
        if e0.world.name_taken(p.true_name@) {
            let k = choose|k: ID| #[trigger] e0.world.is_player(k) && e0.world.player(k).true_name@ == p.true_name@;
            assert(e1.world.is_player(k) && e1.world.player(k).true_name@ == p.true_name@);
        }
    }
}

impl Engine {
    /// Checks a request without carrying it out: the engine is left as it was, and a
    /// request that the action's rules refuse is answered with the refusal.  The answer is
    /// the one the request would get, but for the keys of new objects, which a check
    /// answers as 0.
    pub fn validate(&mut self, req: &mut ActionRequest) -> (r: (ActionResult, ActionContext))
        requires
            old(self).wf(),
            old(req).payload.pre(*old(self)),
        ensures
            final(self).wf(),
            final(self).unchanged(*old(self)),
            *final(req) == *old(req),
            old(req).payload.refusal(*old(self), old(req).actor, false) matches Some(err)
                ==> r.0 == Err::<ActionResponse, ActionError>(err),
            r.0 == old(req).payload.answer(*old(self), *final(self), old(req).actor, false),
    {
        let mut ctx = ActionContext::new();
        let actor = req.actor;
        let r = req.payload.handle(self, &mut ctx, &actor, 0, false);
        (r, ctx)
    }

    /// Handles a request: it is checked first (see `validate`), and carried out only if the
    /// check passes; a refused request gets the refusal and leaves the engine as it was.
    /// Otherwise the answer is the one the action's handler gives in its mutation pass (see
    /// `Action::answer`), and the engine and the frontend commands returned are those that
    /// pass leaves (see `Action::effect`).
    pub fn execute(&mut self, req: ActionRequest) -> (r: Result<(ActionResponse, ActionContext), ActionError>)
        requires
            old(self).wf(),
            req.payload.pre(*old(self)),
        ensures
            final(self).wf(),
            final(self).config == old(self).config,
            final(self).time == old(self).time,
            req.payload.refusal(*old(self), req.actor, false) matches Some(err)
                ==> r == Err::<(ActionResponse, ActionContext), ActionError>(err) && final(self).unchanged(*old(self)),
            exists|checked: Engine| #![trigger checked.unchanged(*old(self))] {
                &&& checked.unchanged(*old(self))
                &&& match req.payload.answer(*old(self), checked, req.actor, false) {
                    Err(e) => r == Err::<(ActionResponse, ActionContext), ActionError>(e) && *final(self) == checked,
                    Ok(_) => {
                        let out = req.payload.answer(checked, *final(self), req.actor, true);
                        &&& match out {
                            Err(e) => r == Err::<(ActionResponse, ActionContext), ActionError>(e),
                            Ok(response) => r matches Ok((given, _)) && given == response,
                        }
                        &&& (r matches Ok((_, c)) ==> req.payload.effect(
                            checked,
                            *final(self),
                            Seq::<CommandPacket>::empty(),
                            c.commands@,
                            req.actor,
                            true,
                            out,
                        ))
                        &&& (r is Err ==> exists|c1: Seq<CommandPacket>| #[trigger] req.payload.effect(
                            checked,
                            *final(self),
                            Seq::<CommandPacket>::empty(),
                            c1,
                            req.actor,
                            true,
                            out,
                        ))
                    },
                }
            },
    {
        let mut req = req;
        let (checked, _) = self.validate(&mut req);
        let ghost mid = *self;
        assert(mid.unchanged(*old(self)));
        match checked {
            Err(e) => {
                return Err(e);
            },
            Ok(_) => {},
        }
        proof {
            lemma_pre_unchanged(req.payload, *old(self), *self);
        }
        let mut ctx = ActionContext::new();
        let actor = req.actor;
        let ghost payload = req.payload;
        let done = req.payload.handle(self, &mut ctx, &actor, 0, true);
        let response = match done {
            Ok(response) => response,
            Err(e) => {
                assert(payload.effect(mid, *self, Seq::<CommandPacket>::empty(), ctx.commands@, req.actor, true, done));
                return Err(e);
            },
        };
        Ok((response, ctx))
    }
}

} // verus!
