use vstd::prelude::*;

use crate::ability::{AbilityInterface, AbilityResponse};
use crate::action::actor::player::kill::{killed, kill_result, Kill};
use crate::action::actor::player::revive::Revive;
use crate::action::actor::player::schedule_revive::ScheduleRevive;
use crate::action::comms::update_contact_channels::contact_channels_hold;
use crate::action::command::Command;
use crate::action::{Action, ActionActor, ActionContext, ActionError, ActionRequest, CommandPacket};
use crate::common::ID;
use crate::config::{AbilityName, Role};
use crate::engine::{Engine, Touched};
use crate::text::{lowercase, to_lowercase};
use crate::action::comms::bug::update_bug_visibilities::all_bug_cmds;

verus! {

#[derive(PartialEq, PartialOrd, Eq, Ord, Structural, Debug, Clone)]
pub struct PseudocideResponse {}

/// Fake a player's death: the player is killed silently, its death is announced under
/// the given name, message and role, and its revival is scheduled for when the
/// pseudocide wears off.
#[derive(PartialEq, PartialOrd, Eq, Ord, Debug, Clone)]
pub struct Pseudocide {
    pub target_id: ID,
    pub true_name: String,
    pub death_message: String,
    pub role: Role,
    pub notebook_transferred: bool,
    pub ability_transferred: bool,
}

impl AbilityInterface for Pseudocide {
    /// The target's contact channels are consistent, and the revival time fits a `u64`.
    open spec fn ready(&self, e: Engine) -> bool {
        &&& contact_channels_hold(e, self.target_id)
        &&& e.time + e.config.defaults.pseudocide_duration <= u64::MAX
    }

    open spec fn name_spec(&self) -> AbilityName {
        AbilityName::Pseudocide
    }

    fn ability_name(&self) -> (n: AbilityName) {
        AbilityName::Pseudocide
    }

    fn handle(
        &mut self,
        eng: &mut Engine,
        ctx: &mut ActionContext,
        actor: &ActionActor,
        ability: ID,
        version: u8,
        mutate: bool,
    ) -> (r: Result<AbilityResponse, ActionError>)
        ensures
            final(eng).only_touches(*old(eng), Touched { actors: true, abilities: true, channels: true, jobs: true, ..Touched::nothing() }),
            !mutate ==> final(eng).unchanged(*old(eng)),
            r == match kill_result(old(self).target_id, *old(eng), *final(eng), ActionActor::System) {
                Err(e) => Err::<AbilityResponse, ActionError>(e),
                Ok(_) => Ok(AbilityResponse::Pseudocide(PseudocideResponse {})),
            },
            mutate && r is Ok ==> killed(old(self).target_id, None, *old(eng), *final(eng)),
            r is Ok ==> final(ctx).commands@.len() == old(ctx).commands@.len() + all_bug_cmds(final(eng).world, final(eng).time)->Ok_0.len() + 1
                && final(ctx).commands@.drop_last() == old(ctx).commands@ + all_bug_cmds(final(eng).world, final(eng).time)->Ok_0
                && final(ctx).commands@.last() == (CommandPacket {
                    cmd: Command::AnnounceDeath {
                        true_name: final(ctx).commands@.last().cmd->true_name,
                        death_message: old(self).death_message,
                        role: old(self).role,
                        notebook_transferred: old(self).notebook_transferred,
                        ability_transferred: old(self).ability_transferred,
                    },
                    recipient: None,
                    timestamp: old(eng).time,
                })
                && final(ctx).commands@.last().cmd->true_name@ == lowercase(old(self).true_name@),
            mutate && r is Ok ==> final(eng).jobs@ == old(eng).jobs@.push(ActionRequest {
                actor: ActionActor::System,
                timestamp: (old(eng).time + old(eng).config.defaults.pseudocide_duration) as u64,
                payload: Action::Revive(Revive { target_id: old(self).target_id }),
            }),
            !mutate ==> final(eng).jobs@ == old(eng).jobs@,
    {
        (Kill { target_id: self.target_id, silent: true, death_message: None, killer_id: None }).handle(
            eng,
            ctx,
            &ActionActor::System,
            version,
            mutate,
        )?;

        ctx.push_cmd(
            Command::AnnounceDeath {
                true_name: to_lowercase(&self.true_name),
                death_message: self.death_message.clone(),
                role: self.role,
                notebook_transferred: self.notebook_transferred,
                ability_transferred: self.ability_transferred,
            },
            None,
            eng.time,
        );

        (ScheduleRevive {
            timestamp: eng.time + eng.config.defaults.pseudocide_duration,
            revive: Revive { target_id: self.target_id },
        }).handle(eng, ctx, &ActionActor::System, version, mutate)?;

        Ok(AbilityResponse::Pseudocide(PseudocideResponse {}))
    }
}

} // verus!
