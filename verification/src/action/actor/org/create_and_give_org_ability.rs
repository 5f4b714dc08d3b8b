use vstd::prelude::*;

use crate::action::ability::give_ability::{config_pool_links, has_config_pools, link_all};
use crate::action::actor::org::give_org_ability::{org_ability_given, org_gift_facts, GiveOrgAbility};
use crate::ability::kind_of;
use crate::actor::{Actor, Organization};
use crate::engine::{id_inserted, same_store};
use crate::seqmap::without_key;
use crate::action::add_ability::{ability_added, AddAbility};
use crate::action::{CommandPacket, ActionActor, ActionContext, ActionError, ActionResponse, ActionResult};
use crate::actor::OrgAbility;
use crate::common::{ID, Variant, Version};
use crate::config::{AbilityIdentifier, AbilityName};
use crate::engine::{Engine, Touched};
use crate::helpers::{get_config_of, get_org};

verus! {

#[derive(PartialEq, Eq, Structural, Clone, Debug)]
pub struct CreateAndGiveOrgAbilityResponse {
    pub id: ID,
}

/// System action: create a (non-transferable) ability of a configured kind and give it to
/// an organization with its settings.  A dry run answers with id 0.
#[derive(PartialEq, Eq, Clone, Debug)]
pub struct CreateAndGiveOrgAbility {
    pub ability_name: AbilityName,
    pub variant: Variant,
    pub org_id: ID,
    pub settings: OrgAbility,
}

/// `e1` is `e0` with a new ability of kind `kind` under the next ability key, owned by
/// organization `org`, which lists it and records settings `s` for it; no other actor
/// changes and no passive either.
pub open spec fn org_ability_created(e0: Engine, e1: Engine, org: ID, kind: AbilityIdentifier, s: OrgAbility) -> bool {
    let id = e0.world.abilities.next_key() as ID;
    let a1 = e1.world.abilities@[id];
    let o1 = e1.world.org(org);
    &&& id == e0.world.abilities.next_key()
    &&& !e0.world.abilities@.contains_key(id)
    &&& e1.world.abilities.next_key() == e0.world.abilities.next_key() + 1
    &&& e1.world.abilities@ == e0.world.abilities@.insert(id, a1)
    &&& a1.ownership_struct.owner == Some(org)
    &&& kind_of(a1) == kind
    &&& e1.world.actors@.dom() == e0.world.actors@.dom()
    &&& e1.world.actors.next_key() == e0.world.actors.next_key()
    &&& forall|k: ID| k != org && #[trigger] e1.world.actors@.contains_key(k) ==> e1.world.actors@[k] == e0.world.actors@[k]
    &&& e1.world.is_org(org)
    &&& o1 == (Organization { abilities: o1.abilities, ..e0.world.org(org) })
    &&& o1.abilities@.len() > 0
    &&& o1.abilities@.drop_last() == without_key(e0.world.org(org).abilities@, id)
    &&& o1.abilities@.last().0 == id
    &&& o1.abilities@.last().1.same_as(s)
    &&& e1.world.actors@[org] == (Actor {
        actor_type: e1.world.actors@[org].actor_type,
        abilities: e1.world.actors@[org].abilities,
        ..e0.world.actors@[org]
    })
    &&& e1.world.actors@[org].abilities@ == id_inserted(e0.world.actors@[org].abilities@, id)
    &&& same_store(e1.world.passives, e0.world.passives)
}

impl CreateAndGiveOrgAbility {
    pub open spec fn kind(&self) -> AbilityIdentifier {
        AbilityIdentifier { name: self.ability_name, variant: self.variant }
    }

    /// The organization has every pool that the kind's config links name (the engine
    /// crashes otherwise).
    pub open spec fn pools_ready(&self, e: Engine) -> bool {
        e.world.actors@.contains_key(self.org_id) ==> match e.config.ability_spec(self.kind()) {
            Some(c) => has_config_pools(c.default_links@, e.world.actors@[self.org_id]),
            None => true,
        }
    }

    /// Why the ability is not created and given, if it is not.
    pub open spec fn refusal(&self, e: Engine, actor: ActionActor, mutate: bool) -> Option<ActionError> {
        if !(actor is System) {
            Some(ActionError::RequiresSystem)
        } else if e.config.ability_spec(self.kind()) is None {
            Some(ActionError::AbilityConfigNotFound)
        } else if !e.world.actors@.contains_key(self.org_id) {
            Some(ActionError::ActorNotFound)
        } else if !e.world.is_org(self.org_id) {
            Some(ActionError::NotAnOrg)
        } else if mutate && link_all(
            e.world.charge_pools@,
            config_pool_links(e.config.ability_spec(self.kind())->0.default_links@, e.world.actors@[self.org_id]),
        ) is None {
            Some(ActionError::ChargePoolNotFound)
        } else {
            None
        }
    }

    /// What the handler does besides answering: its effect on the engine (from `e0` to
    /// `e1`) and on the commands (from `c0` to `c1`), given its answer `r`.
    pub open spec fn effect(
        &self,
        e0: Engine,
        e1: Engine,
        c0: Seq<CommandPacket>,
        c1: Seq<CommandPacket>,
        actor: ActionActor,
        mutate: bool,
        r: ActionResult,
    ) -> bool {
        &&& (e1.wf())
        &&& (c1 =~= c0)
        &&& (e1.only_touches(e0, Touched { actors: true, abilities: true, charge_pools: true, ..Touched::nothing() }))
        &&& (!mutate ==> e1.unchanged(e0))
        &&& (e0.config.ability_spec(self.kind()) is None ==> e1.unchanged(e0))
        &&& (mutate && r is Ok ==> org_ability_created(e0, e1, self.org_id, self.kind(), self.settings))
        &&& (mutate && r is Ok ==> exists|added: Engine| {
            &&& #[trigger] ability_added(e0, added, self.ability_name, self.variant, false, false)
            &&& org_ability_given(
                added,
                e1,
                self.org_id,
                e0.world.abilities.next_key() as ID,
                self.settings,
            )
        })
    }

    /// The answer to a request from `actor`, from the engine before (`e0`) and after (`e1`)
    /// the handler runs.
    pub open spec fn answer(&self, e0: Engine, e1: Engine, actor: ActionActor, mutate: bool) -> ActionResult {
        match self.refusal(e0, actor, mutate) {
            Some(e) => Err::<ActionResponse, ActionError>(e),
            None => Ok(ActionResponse::CreateAndGiveOrgAbility(CreateAndGiveOrgAbilityResponse {
                id: if mutate { e0.world.abilities.next_key() as ID } else { 0 },
            })),
        }
    }

    pub fn handle(
        &mut self,
        eng: &mut Engine,
        ctx: &mut ActionContext,
        actor: &ActionActor,
        version: Version,
        mutate: bool,
    ) -> (r: ActionResult)
        requires
            old(eng).wf(),
            old(self).pools_ready(*old(eng)),
        ensures
            final(eng).wf(),
            *final(self) == *old(self),
            final(ctx).commands@ == old(ctx).commands@,
            final(eng).only_touches(*old(eng), Touched { actors: true, abilities: true, charge_pools: true, ..Touched::nothing() }),
            !mutate ==> final(eng).unchanged(*old(eng)),
            old(eng).config.ability_spec(old(self).kind()) is None ==> final(eng).unchanged(*old(eng)),
            r == old(self).answer(*old(eng), *final(eng), *actor, mutate),
            mutate && r is Ok ==> org_ability_created(*old(eng), *final(eng), old(self).org_id, old(self).kind(), old(self).settings),
            mutate && r is Ok ==> exists|added: Engine| {
                &&& #[trigger] ability_added(*old(eng), added, old(self).ability_name, old(self).variant, false, false)
                &&& org_ability_given(
                    added,
                    *final(eng),
                    old(self).org_id,
                    old(eng).world.abilities.next_key() as ID,
                    old(self).settings,
                )
            },
            old(self).effect(*old(eng), *final(eng), old(ctx).commands@, final(ctx).commands@, *actor, mutate, r),
    {
        actor.require_system()?;
        let _ = get_config_of(eng, AbilityIdentifier { name: self.ability_name, variant: self.variant })?;
        let _ = get_org(eng, self.org_id)?;

        let add_response = (AddAbility {
            ability_name: self.ability_name,
            variant: self.variant,
            transferrable: false,
            volatile: false,
        }).handle(eng, ctx, actor, version, mutate)?;
        let id: ID = match add_response {
            ActionResponse::AddAbility(data) => data.id,
            _ => 0,
        };

        if mutate {
            let ghost added = *eng;
            let mut give = GiveOrgAbility { org_id: self.org_id, ability_id: id, settings: self.settings.duplicate() };
            proof {
                assert(added.world.actors@ == old(eng).world.actors@);
                assert(added.world.abilities@[id].ownership_struct.owner is None);
            }
            give.handle(eng, ctx, actor, version, mutate)?;
            proof {
                assert(ability_added(*old(eng), added, self.ability_name, self.variant, false, false));
                let e0 = *old(eng);
                let e1 = *eng;
                let id = e0.world.abilities.next_key() as ID;
                assert(org_gift_facts(added, e1, self.org_id, id, self.settings));
                assert(e1.world.abilities@ =~= e0.world.abilities@.insert(id, e1.world.abilities@[id]));
                assert(kind_of(e1.world.abilities@[id]) == self.kind());
                assert(e1.world.actors@.dom() == e0.world.actors@.dom());
                assert(e1.world.actors.next_key() == e0.world.actors.next_key());
                assert(forall|k: ID| k != self.org_id && #[trigger] e1.world.actors@.contains_key(k) ==> e1.world.actors@[k] == e0.world.actors@[k]);
                assert(e1.world.org(self.org_id) == (Organization { abilities: e1.world.org(self.org_id).abilities, ..e0.world.org(self.org_id) }));
                assert(same_store(e1.world.passives, e0.world.passives));
            }
        }
        Ok(ActionResponse::CreateAndGiveOrgAbility(CreateAndGiveOrgAbilityResponse { id }))
    }
}

} // verus!
