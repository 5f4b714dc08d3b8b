use vstd::prelude::*;

use crate::ability::{AbilityInterface, AbilityResponse};
use crate::action::actor::player::kill::{killed, kill_result, Kill};
use crate::action::comms::bug::update_bug_visibilities::all_bug_cmds;
use crate::action::comms::update_contact_channels::contact_channels_hold;
use crate::action::{ActionActor, ActionContext, ActionError};
use crate::common::ID;
use crate::config::AbilityName;
use crate::engine::{Engine, Touched};
use crate::helpers::actor_id;

verus! {

#[derive(PartialEq, PartialOrd, Eq, Ord, Structural, Debug, Clone)]
pub struct GunResponse {}

/// Shoot a player dead.
#[derive(PartialEq, PartialOrd, Eq, Ord, Structural, Debug, Clone)]
pub struct Gun {
    pub target_id: ID,
}

impl AbilityInterface for Gun {
    open spec fn ready(&self, e: Engine) -> bool {
        contact_channels_hold(e, self.target_id)
    }

    open spec fn name_spec(&self) -> AbilityName {
        AbilityName::Gun
    }

    fn ability_name(&self) -> (n: AbilityName) {
        AbilityName::Gun
    }

    /// The target is killed (by the system, on behalf of the user, who takes the target's
    /// transferrable abilities).
    fn handle(
        &mut self,
        eng: &mut Engine,
        ctx: &mut ActionContext,
        actor: &ActionActor,
        ability: ID,
        version: u8,
        mutate: bool,
    ) -> (r: Result<AbilityResponse, ActionError>)
        ensures
            final(eng).only_touches(*old(eng), Touched { actors: true, abilities: true, channels: true, ..Touched::nothing() }),
            final(eng).jobs@ == old(eng).jobs@,
            !mutate ==> final(eng).unchanged(*old(eng)),
            r == match kill_result(old(self).target_id, *old(eng), *final(eng), ActionActor::System) {
                Err(e) => Err::<AbilityResponse, ActionError>(e),
                Ok(_) => Ok(AbilityResponse::Gun(GunResponse {})),
            },
            mutate && r is Ok ==> killed(old(self).target_id, actor.acting_id(), *old(eng), *final(eng)),
            r is Ok ==> final(ctx).commands@ == old(ctx).commands@ + all_bug_cmds(final(eng).world, final(eng).time)->Ok_0,
    {
        let id: Option<ID> = actor_id(actor);

        (Kill {
            target_id: self.target_id,
            killer_id: id,
            silent: false,
            death_message: Some(
                "They were found dead with 3 gunshot wounds to the back of the head. Their death was ruled a suicide.".to_string(),
            ),
        }).handle(eng, ctx, &ActionActor::System, version, mutate)?;

        Ok(AbilityResponse::Gun(GunResponse {}))
    }
}

} // verus!
