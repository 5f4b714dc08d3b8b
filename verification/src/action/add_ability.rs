use vstd::prelude::*;

use crate::ability::{Ability, AbilityPoolLink};
use crate::action::{CommandPacket, ActionActor, ActionContext, ActionError, ActionResponse, ActionResult};
use crate::common::{ID, Variant, Version};
use crate::config::{AbilityIdentifier, AbilityName};
use crate::engine::{Engine, Touched};
use crate::helpers::get_config_of;
use crate::ownership::OwnershipStruct;

verus! {

#[derive(PartialEq, Eq, Structural, Clone, Debug)]
pub struct AddAbilityResponse {
    pub id: ID,
}

/// System action: add an unowned ability of a configured kind to the world.
#[derive(PartialEq, Eq, Structural, Clone, Debug)]
pub struct AddAbility {
    pub ability_name: AbilityName,
    pub volatile: bool,
    pub transferrable: bool,
    pub variant: Variant,
}

/// `e1` is `e0` with a new unowned ability without links, of kind `name` / `variant`,
/// under the next ability key.
pub open spec fn ability_added(
    e0: Engine,
    e1: Engine,
    name: AbilityName,
    variant: Variant,
    transferrable: bool,
    volatile: bool,
) -> bool {
    let id = e0.world.abilities.next_key() as ID;
    let a = e1.world.abilities@[id];
    &&& id == e0.world.abilities.next_key()
    &&& !e0.world.abilities@.contains_key(id)
    &&& e1.world.abilities@ == e0.world.abilities@.insert(id, a)
    &&& e1.world.abilities.next_key() == e0.world.abilities.next_key() + 1
    &&& a.ownership_struct == (OwnershipStruct { owner: None, transferrable, volatile })
    &&& a.ability_name == name
    &&& a.variant == variant
    &&& a.links() == Seq::<AbilityPoolLink>::empty()
    &&& e1.only_touches(e0, Touched { abilities: true, ..Touched::nothing() })
}

impl AddAbility {
    /// What the handler does besides answering: its effect on the engine (from `e0` to
    /// `e1`) and on the commands (from `c0` to `c1`), given its answer `r`.
    pub open spec fn effect(
        &self,
        e0: Engine,
        e1: Engine,
        c0: Seq<CommandPacket>,
        c1: Seq<CommandPacket>,
        actor: ActionActor,
        mutate: bool,
        r: ActionResult,
    ) -> bool {
        &&& (e1.wf())
        &&& (c1 =~= c0)
        &&& (r is Err || !mutate ==> e1.unchanged(e0))
        &&& (r is Ok && mutate ==> ability_added(
            e0,
            e1,
            self.ability_name,
            self.variant,
            self.transferrable,
            self.volatile,
        ))
    }

    /// On success the response carries the key of the new ability (0 on a dry run).
    /// The answer to a request from `actor`, from the engine before (`e0`) and after (`e1`)
    /// the handler runs.
    pub open spec fn answer(&self, e0: Engine, e1: Engine, actor: ActionActor, mutate: bool) -> ActionResult {
        if !(actor is System) {
            Err::<ActionResponse, ActionError>(ActionError::RequiresSystem)
        } else if e0.config.ability_spec(
            AbilityIdentifier { name: self.ability_name, variant: self.variant },
        ) is None {
            Err(ActionError::AbilityConfigNotFound)
        } else {
            Ok(ActionResponse::AddAbility(AddAbilityResponse {
                id: if mutate { e0.world.abilities.next_key() as ID } else { 0 },
            }))
        }
    }

    pub fn handle(
        &mut self,
        eng: &mut Engine,
        ctx: &mut ActionContext,
        actor: &ActionActor,
        version: Version,
        mutate: bool,
    ) -> (r: ActionResult)
        requires
            old(eng).wf(),
        ensures
            final(eng).wf(),
            *final(self) == *old(self),
            final(ctx).commands@ == old(ctx).commands@,
            r == old(self).answer(*old(eng), *final(eng), *actor, mutate),
            r is Err || !mutate ==> final(eng).unchanged(*old(eng)),
            r is Ok && mutate ==> ability_added(
                *old(eng),
                *final(eng),
                old(self).ability_name,
                old(self).variant,
                old(self).transferrable,
                old(self).volatile,
            ),
            old(self).effect(*old(eng), *final(eng), old(ctx).commands@, final(ctx).commands@, *actor, mutate, r),
    {
        actor.require_system()?;

        let _ = get_config_of(eng, AbilityIdentifier { name: self.ability_name, variant: self.variant })?;

        let id: ID = if mutate {
            let mut ability = Ability::new(self.ability_name, self.variant, self.transferrable);
            ability.ownership_struct.volatile = self.volatile;
            eng.world.add_ability(ability)
        } else {
            0
        };

        Ok(ActionResponse::AddAbility(AddAbilityResponse { id }))
    }
}

} // verus!
