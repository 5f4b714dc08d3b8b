use vstd::prelude::*;

use crate::ability::{AbilityBehaviour, AbilityInterface};
use crate::action::actor::org::system_use_org_ability::{org_settings_hold, SystemUseOrgAbility};
use crate::action::{CommandPacket, ActionActor, ActionContext, ActionError, ActionResponse, ActionResult};
use crate::common::{AbilityKey, ActorKey, PollKey, Version};
use crate::engine::{Engine, Touched};
use crate::helpers::actor_id;

verus! {

#[derive(PartialEq, Eq, Structural, Clone, Debug)]
pub struct UseOrgAbilityResponse {
    pub poll_id: Option<PollKey>,
}

/// Player action: use an ability of an organization, as one of its members (the system
/// does it for the player, see `SystemUseOrgAbility`).  The answer names the poll opened
/// when the use needs a vote.
#[derive(PartialEq, Eq, Clone, Debug)]
pub struct UseOrgAbility {
    pub org_id: ActorKey,
    pub ability_id: AbilityKey,
    pub ability_args: AbilityBehaviour,
}

impl UseOrgAbility {
    /// The system use that the request stands for, by player `user`.
    pub open spec fn system_use(&self, user: ActorKey) -> SystemUseOrgAbility {
        SystemUseOrgAbility {
            org_id: self.org_id,
            user_id: user,
            ability_id: self.ability_id,
            ability_args: self.ability_args,
            dont_vote: false,
        }
    }

    /// What the handler does besides answering: its effect on the engine (from `e0` to
    /// `e1`) and on the commands (from `c0` to `c1`), given its answer `r`.
    pub open spec fn effect(
        &self,
        e0: Engine,
        e1: Engine,
        c0: Seq<CommandPacket>,
        c1: Seq<CommandPacket>,
        actor: ActionActor,
        mutate: bool,
        r: ActionResult,
    ) -> bool {
        &&& (e1.wf())
        &&& (e1.only_touches(
            e0,
            Touched { actors: true, abilities: true, charge_pools: true, channels: true, jobs: true, polls: true, ..Touched::nothing() },
        ))
        &&& (!mutate ==> e1.unchanged(e0))
        &&& (!(actor is Player) ==> r == Err::<ActionResponse, ActionError>(ActionError::RequiresPlayer)
            && e1.unchanged(e0) && c1 =~= c0)
        &&& (actor matches ActionActor::Player(user) ==> {
            &&& r == match self.system_use(user).outcome(e0, e1, mutate) {
                Ok(p) => Ok(ActionResponse::UseOrgAbility(UseOrgAbilityResponse { poll_id: p })),
                Err(e) => Err::<ActionResponse, ActionError>(e),
            }
            &&& self.system_use(user).done(e0, e1, c0, c1, mutate, r is Ok)
        })
    }

    /// The answer to a request from `actor`, from the engine before (`e0`) and after (`e1`)
    /// the handler runs.
    pub open spec fn answer(&self, e0: Engine, e1: Engine, actor: ActionActor, mutate: bool) -> ActionResult {
        if !(actor is Player) {
            Err::<ActionResponse, ActionError>(ActionError::RequiresPlayer)
        } else {
            match self.system_use(actor->Player_0).outcome(e0, e1, mutate) {
                Ok(p) => Ok(ActionResponse::UseOrgAbility(UseOrgAbilityResponse { poll_id: p })),
                Err(e) => Err::<ActionResponse, ActionError>(e),
            }
        }
    }

    pub fn handle(
        &mut self,
        eng: &mut Engine,
        ctx: &mut ActionContext,
        actor: &ActionActor,
        version: Version,
        mutate: bool,
    ) -> (r: ActionResult)
        requires
            old(eng).wf(),
            org_settings_hold(*old(eng), old(self).org_id, old(self).ability_id),
            old(self).ability_args.ready(*old(eng)),
        ensures
            r == old(self).answer(*old(eng), *final(eng), *actor, mutate),
            final(eng).wf(),
            *final(self) == *old(self),
            final(eng).only_touches(
                *old(eng),
                Touched { actors: true, abilities: true, charge_pools: true, channels: true, jobs: true, polls: true, ..Touched::nothing() },
            ),
            !mutate ==> final(eng).unchanged(*old(eng)),
            !(*actor is Player) ==> r == Err::<ActionResponse, ActionError>(ActionError::RequiresPlayer)
                && final(eng).unchanged(*old(eng)) && final(ctx).commands@ == old(ctx).commands@,
            *actor matches ActionActor::Player(user) ==> {
                &&& r == match old(self).system_use(user).outcome(*old(eng), *final(eng), mutate) {
                    Ok(p) => Ok(ActionResponse::UseOrgAbility(UseOrgAbilityResponse { poll_id: p })),
                    Err(e) => Err::<ActionResponse, ActionError>(e),
                }
                &&& old(self).system_use(user).done(*old(eng), *final(eng), old(ctx).commands@, final(ctx).commands@, mutate, r is Ok)
            },
            old(self).effect(*old(eng), *final(eng), old(ctx).commands@, final(ctx).commands@, *actor, mutate, r),
    {
        actor.player_only()?;
        let user: ActorKey = actor_id(actor).unwrap();
        let mut sys = SystemUseOrgAbility {
            org_id: self.org_id,
            user_id: user,
            ability_id: self.ability_id,
            ability_args: self.ability_args.duplicate(),
            dont_vote: false,
        };
        let response = sys.handle(eng, ctx, &ActionActor::System, version, mutate)?;
        let poll_id: Option<PollKey> = match response {
            ActionResponse::SystemUseOrgAbility(used) => used.poll_id,
            _ => None,
        };
        Ok(ActionResponse::UseOrgAbility(UseOrgAbilityResponse { poll_id }))
    }
}

} // verus!
