use vstd::prelude::*;

use crate::action::ability::give_ability::{ability_given, GiveAbility};
use crate::action::{CommandPacket, ActionActor, ActionContext, ActionError, ActionResponse, ActionResult};
use crate::ability::kind_of;
use crate::actor::{Actor, OrgAbility, Organization};
use crate::common::{ID, Version};
use crate::engine::{id_inserted, lemma_org_replaced, org_replaced, Engine, Touched, World};
use crate::helpers::get_org;
use crate::seqmap::without_key;

verus! {

#[derive(PartialEq, Eq, Structural, Clone, Debug)]
pub struct GiveOrgAbilityResponse {}

/// Admin or system action: give an ability to an organization (see `GiveAbility`) and
/// record the settings its use follows.
#[derive(PartialEq, Eq, Clone, Debug)]
pub struct GiveOrgAbility {
    pub org_id: ID,
    pub ability_id: ID,
    pub settings: OrgAbility,
}

/// `e1` is `e0` after ability `aid` was given to organization `org` with settings `s`.
pub open spec fn org_ability_given(e0: Engine, e1: Engine, org: ID, aid: ID, s: OrgAbility) -> bool {
    exists|mid: Engine| {
        &&& #[trigger] ability_given(e0, mid, aid, org, false)
        &&& e1.world == (World { actors: e1.world.actors, ..mid.world })
        &&& e1.world.actors.next_key() == mid.world.actors.next_key()
        &&& org_replaced(mid.world.actors@, e1.world.actors@, org, e1.world.org(org))
        &&& e1.world.org(org) == (Organization { abilities: e1.world.org(org).abilities, ..mid.world.org(org) })
        &&& e1.world.org(org).abilities@.drop_last() == without_key(mid.world.org(org).abilities@, aid)
        &&& e1.world.org(org).abilities@.last().0 == aid
        &&& e1.world.org(org).abilities@.last().1.same_as(s)
    }
}

/// The facts about a gift of ability `aid` to organization `org` with settings `s` that do
/// not depend on links: the ability is the organization's, the organization lists it and
/// records the settings, and no actor but the organization and the previous owner changes.
pub open spec fn org_gift_facts(e0: Engine, e1: Engine, org: ID, aid: ID, s: OrgAbility) -> bool {
    let a0 = e0.world.abilities@[aid];
    let a1 = e1.world.abilities@[aid];
    let o1 = e1.world.org(org);
    &&& e1.world.abilities@ == e0.world.abilities@.insert(aid, a1)
    &&& e1.world.abilities.next_key() == e0.world.abilities.next_key()
    &&& e1.world.actors.next_key() == e0.world.actors.next_key()
    &&& a1.ownership_struct.owner == Some(org)
    &&& kind_of(a1) == kind_of(a0)
    &&& e1.world.actors@.dom() == e0.world.actors@.dom()
    &&& forall|k: ID| k != org && Some(k) != a0.ownership_struct.owner && #[trigger] e1.world.actors@.contains_key(k)
        ==> e1.world.actors@[k] == e0.world.actors@[k]
    &&& e1.world.is_org(org)
    &&& o1 == (Organization { abilities: o1.abilities, ..e0.world.org(org) })
    &&& o1.abilities@.len() > 0
    &&& o1.abilities@.drop_last() == without_key(e0.world.org(org).abilities@, aid)
    &&& o1.abilities@.last().0 == aid
    &&& o1.abilities@.last().1.same_as(s)
    &&& e1.world.actors@[org] == (Actor {
        actor_type: e1.world.actors@[org].actor_type,
        abilities: e1.world.actors@[org].abilities,
        ..e0.world.actors@[org]
    })
    &&& e1.world.actors@[org].abilities@ == id_inserted(e0.world.actors@[org].abilities@, aid)
}

impl GiveOrgAbility {
    /// The transfer that the gift makes.
    pub open spec fn give(&self) -> GiveAbility {
        GiveAbility { ability_id: self.ability_id, actor_id: self.org_id, volatile: false }
    }

    /// Why the gift is refused, if it is.
    pub open spec fn refusal(&self, e: Engine, actor: ActionActor, mutate: bool) -> Option<ActionError> {
        if !actor.is_admin_or_system() {
            Some(ActionError::RequiresAdminOrSystem)
        } else if !e.world.actors@.contains_key(self.org_id) {
            Some(ActionError::ActorNotFound)
        } else if !e.world.is_org(self.org_id) {
            Some(ActionError::NotAnOrg)
        } else {
            self.give().refusal(e, actor, mutate)
        }
    }

    /// What the handler does besides answering: its effect on the engine (from `e0` to
    /// `e1`) and on the commands (from `c0` to `c1`), given its answer `r`.
    pub open spec fn effect(
        &self,
        e0: Engine,
        e1: Engine,
        c0: Seq<CommandPacket>,
        c1: Seq<CommandPacket>,
        actor: ActionActor,
        mutate: bool,
        r: ActionResult,
    ) -> bool {
        &&& (e1.wf())
        &&& (c1 =~= c0)
        &&& (e1.only_touches(e0, Touched { actors: true, abilities: true, charge_pools: true, ..Touched::nothing() }))
        &&& (!mutate ==> e1.unchanged(e0))
        &&& (mutate && r is Ok ==> org_ability_given(e0, e1, self.org_id, self.ability_id, self.settings))
        &&& (mutate && r is Ok ==> org_gift_facts(e0, e1, self.org_id, self.ability_id, self.settings))
    }

    /// The answer to a request from `actor`, from the engine before (`e0`) and after (`e1`)
    /// the handler runs.
    pub open spec fn answer(&self, e0: Engine, e1: Engine, actor: ActionActor, mutate: bool) -> ActionResult {
        match self.refusal(e0, actor, mutate) {
            Some(e) => Err::<ActionResponse, ActionError>(e),
            None => Ok(ActionResponse::GiveOrgAbility(GiveOrgAbilityResponse {})),
        }
    }

    pub fn handle(
        &mut self,
        eng: &mut Engine,
        ctx: &mut ActionContext,
        actor: &ActionActor,
        version: Version,
        mutate: bool,
    ) -> (r: ActionResult)
        requires
            old(eng).wf(),
            old(self).give().pools_ready(*old(eng)),
        ensures
            final(eng).wf(),
            *final(self) == *old(self),
            final(ctx).commands@ == old(ctx).commands@,
            final(eng).only_touches(*old(eng), Touched { actors: true, abilities: true, charge_pools: true, ..Touched::nothing() }),
            !mutate ==> final(eng).unchanged(*old(eng)),
            r == old(self).answer(*old(eng), *final(eng), *actor, mutate),
            mutate && r is Ok ==> org_ability_given(*old(eng), *final(eng), old(self).org_id, old(self).ability_id, old(self).settings),
            mutate && r is Ok ==> org_gift_facts(*old(eng), *final(eng), old(self).org_id, old(self).ability_id, old(self).settings),
            old(self).effect(*old(eng), *final(eng), old(ctx).commands@, final(ctx).commands@, *actor, mutate, r),
    {
        actor.admin_or_system()?;
        let _ = get_org(eng, self.org_id)?;

        let mut give = GiveAbility { ability_id: self.ability_id, actor_id: self.org_id, volatile: false };
        give.handle(eng, ctx, actor, version, mutate)?;

        if mutate {
            let ghost mid = *eng;
            eng.world.set_org_ability(self.org_id, self.ability_id, self.settings.duplicate());
            proof {
                lemma_org_replaced(mid.world.actors@, eng.world.actors@, self.org_id, eng.world.org(self.org_id));
                assert(eng.world.org(self.org_id).abilities@.drop_last() =~= without_key(mid.world.org(self.org_id).abilities@, self.ability_id));
                assert(ability_given(*old(eng), mid, self.ability_id, self.org_id, false));
            }
        }
        Ok(ActionResponse::GiveOrgAbility(GiveOrgAbilityResponse {}))
    }
}

} // verus!
