use vstd::prelude::*;

use crate::helpers::get_actor;

use crate::ability::{add_volatile_links, AbilityPoolLink};
use crate::action::ability::give_ability::{config_pool_links, has_config_pools, link_all, GiveAbility};
use crate::action::add_ability::AddAbility;
use crate::action::{CommandPacket, ActionActor, ActionContext, ActionError, ActionResponse, ActionResult};
use crate::common::{ID, Variant, Version};
use crate::config::{AbilityIdentifier, AbilityName};
use crate::engine::{ability_list_set, Engine, Touched};
use crate::ownership::OwnershipStruct;

verus! {

#[derive(PartialEq, Eq, Structural, Clone, Debug)]
pub struct CreateAndGiveAbilityResponse {
    pub id: ID,
}

/// System action: create an ability of a configured kind and give it to an actor.
#[derive(PartialEq, Eq, Structural, Clone, Debug)]
pub struct CreateAndGiveAbility {
    pub ability_name: AbilityName,
    pub transferrable: bool,
    pub variant: Variant,
    pub actor_id: ID,
    pub volatile: bool,
}

impl CreateAndGiveAbility {
    pub open spec fn kind(&self) -> AbilityIdentifier {
        AbilityIdentifier { name: self.ability_name, variant: self.variant }
    }

    /// The new owner has every pool that the kind's config links name.
    pub open spec fn pools_ready(&self, e: Engine) -> bool {
        e.world.actors@.contains_key(self.actor_id) ==> match e.config.ability_spec(self.kind()) {
            Some(c) => has_config_pools(c.default_links@, e.world.actors@[self.actor_id]),
            None => true,
        }
    }

    /// Why the action is refused on engine `e`, if it is.  A dry run checks the request,
    /// the recipient and the config, so that no ability is created for a missing actor;
    /// the pools of the gift are checked on the mutation pass.
    pub open spec fn refusal(&self, e: Engine, actor: ActionActor, mutate: bool) -> Option<ActionError> {
        if !(actor is System) {
            Some(ActionError::RequiresSystem)
        } else if !e.world.actors@.contains_key(self.actor_id) {
            Some(ActionError::ActorNotFound)
        } else if e.config.ability_spec(self.kind()) is None {
            Some(ActionError::AbilityConfigNotFound)
        } else if !mutate {
            None
        } else if link_all(
            e.world.charge_pools@,
            config_pool_links(e.config.ability_spec(self.kind())->0.default_links@, e.world.actors@[self.actor_id]),
        ) is None {
            Some(ActionError::ChargePoolNotFound)
        } else {
            None
        }
    }

    /// What the handler does besides answering: its effect on the engine (from `e0` to
    /// `e1`) and on the commands (from `c0` to `c1`), given its answer `r`.
    pub open spec fn effect(
        &self,
        e0: Engine,
        e1: Engine,
        c0: Seq<CommandPacket>,
        c1: Seq<CommandPacket>,
        actor: ActionActor,
        mutate: bool,
        r: ActionResult,
    ) -> bool {
        &&& (e1.wf())
        &&& (c1 =~= c0)
        &&& (!mutate || self.refusal(e0, actor, false) is Some ==> e1.unchanged(e0))
        &&& (e1.only_touches(e0, Touched { actors: true, abilities: true, charge_pools: true, ..Touched::nothing() }))
        &&& (mutate && r is Ok ==> {
            let id = e0.world.abilities.next_key() as ID;
            let act = self.actor_id;
            let a = e1.world.abilities@[id];
            let l0 = e0.world.actors@[act].abilities@;
            let l1 = if l0.contains(id) { l0 } else { l0.push(id) };
            let nl = config_pool_links(
                e0.config.ability_spec(self.kind())->0.default_links@,
                e0.world.actors@[act],
            );
            &&& !e0.world.abilities@.contains_key(id)
            &&& e1.world.abilities@ =~= e0.world.abilities@.insert(id, a)
            &&& e1.world.abilities.next_key() == e0.world.abilities.next_key() + 1
            &&& a.ownership_struct == (OwnershipStruct {
                owner: Some(act),
                transferrable: self.transferrable,
                volatile: self.volatile,
            })
            &&& a.ability_name == self.ability_name
            &&& a.variant == self.variant
            &&& a.links() == add_volatile_links(Seq::<AbilityPoolLink>::empty(), nl)
            &&& e1.world.charge_pools@ =~= link_all(e0.world.charge_pools@, nl)->0
            &&& ability_list_set(
                e0.world.actors@,
                e1.world.actors@,
                act,
                l1,
            )
        })
    }

    /// The answer to a request from `actor`, from the engine before (`e0`) and after (`e1`)
    /// the handler runs.
    pub open spec fn answer(&self, e0: Engine, e1: Engine, actor: ActionActor, mutate: bool) -> ActionResult {
        match self.refusal(e0, actor, mutate) {
            Some(e) => Err::<ActionResponse, ActionError>(e),
            None => Ok(ActionResponse::CreateAndGiveAbility(CreateAndGiveAbilityResponse {
                id: if mutate { e0.world.abilities.next_key() as ID } else { 0 },
            })),
        }
    }

    pub fn handle(
        &mut self,
        eng: &mut Engine,
        ctx: &mut ActionContext,
        actor: &ActionActor,
        version: Version,
        mutate: bool,
    ) -> (r: ActionResult)
        requires
            old(eng).wf(),
            old(self).pools_ready(*old(eng)),
        ensures
            final(eng).wf(),
            *final(self) == *old(self),
            final(ctx).commands@ == old(ctx).commands@,
            r == old(self).answer(*old(eng), *final(eng), *actor, mutate),
            !mutate || old(self).refusal(*old(eng), *actor, false) is Some ==> final(eng).unchanged(*old(eng)),
            final(eng).only_touches(*old(eng), Touched { actors: true, abilities: true, charge_pools: true, ..Touched::nothing() }),
            mutate && r is Ok ==> {
                let id = old(eng).world.abilities.next_key() as ID;
                let act = old(self).actor_id;
                let a = final(eng).world.abilities@[id];
                let l0 = old(eng).world.actors@[act].abilities@;
                let l1 = if l0.contains(id) { l0 } else { l0.push(id) };
                let nl = config_pool_links(
                    old(eng).config.ability_spec(old(self).kind())->0.default_links@,
                    old(eng).world.actors@[act],
                );
                &&& !old(eng).world.abilities@.contains_key(id)
                &&& final(eng).world.abilities@ == old(eng).world.abilities@.insert(id, a)
                &&& final(eng).world.abilities.next_key() == old(eng).world.abilities.next_key() + 1
                &&& a.ownership_struct == (OwnershipStruct {
                    owner: Some(act),
                    transferrable: old(self).transferrable,
                    volatile: old(self).volatile,
                })
                &&& a.ability_name == old(self).ability_name
                &&& a.variant == old(self).variant
                &&& a.links() == add_volatile_links(Seq::<AbilityPoolLink>::empty(), nl)
                &&& final(eng).world.charge_pools@ == link_all(old(eng).world.charge_pools@, nl)->0
                &&& ability_list_set(
                    old(eng).world.actors@,
                    final(eng).world.actors@,
                    act,
                    l1,
                )
            },
            old(self).effect(*old(eng), *final(eng), old(ctx).commands@, final(ctx).commands@, *actor, mutate, r),
    {
        actor.require_system()?;
        let _ = get_actor(eng, self.actor_id)?;

        let add_response = (AddAbility {
            ability_name: self.ability_name,
            variant: self.variant,
            transferrable: self.transferrable,
            volatile: self.volatile,
        }).handle(eng, ctx, actor, version, mutate)?;
        let id: ID = match add_response {
            ActionResponse::AddAbility(data) => data.id,
            _ => vstd::pervasive::unreached(),
        };

        if mutate {
            let ghost e1 = *eng;
            (GiveAbility { ability_id: id, actor_id: self.actor_id, volatile: self.volatile }).handle(
                eng,
                ctx,
                actor,
                version,
                mutate,
            )?;
            proof {
                assert(eng.world.actors@ =~= e1.world.actors@.insert(self.actor_id, eng.world.actors@[self.actor_id]));
            }
        }

        Ok(ActionResponse::CreateAndGiveAbility(CreateAndGiveAbilityResponse { id }))
    }
}

} // verus!
