use vstd::prelude::*;

use crate::ability::{link_dests, AbilityPoolLink};
use crate::action::ability::remove_link::{
    all_pools_exist, lemma_strip_own_dests, relinked, remove_links_to, strip_links, unlink_all,
};
use crate::action::{CommandPacket, ActionActor, ActionContext, ActionError, ActionResponse, ActionResult};
use crate::common::{ID, Version};
use crate::engine::{Engine, Touched};
use crate::helpers::get_ability;

verus! {

#[derive(PartialEq, Eq, Structural, Clone, Debug)]
pub struct ClearVolatileLinksResponse {}

/// System action: remove an ability's volatile links (one `RemoveLink` per volatile link,
/// in order), dropping a reference from each pool and deleting pools left unreferenced.
#[derive(PartialEq, Eq, Structural, Clone, Debug)]
pub struct ClearVolatileLinks {
    pub ability_id: ID,
}

impl ClearVolatileLinks {
    /// What the handler does besides answering: its effect on the engine (from `e0` to
    /// `e1`) and on the commands (from `c0` to `c1`), given its answer `r`.
    pub open spec fn effect(
        &self,
        e0: Engine,
        e1: Engine,
        c0: Seq<CommandPacket>,
        c1: Seq<CommandPacket>,
        actor: ActionActor,
        mutate: bool,
        r: ActionResult,
    ) -> bool {
        &&& (e1.wf())
        &&& (c1 =~= c0)
        &&& (!(actor is System) ==> r == Err::<ActionResponse, ActionError>(ActionError::RequiresSystem))
        &&& (actor is System && !e0.world.abilities@.contains_key(self.ability_id)
            ==> r == Err::<ActionResponse, ActionError>(ActionError::AbilityNotFound))
        &&& (r is Ok ==> r == Ok::<ActionResponse, ActionError>(ActionResponse::ClearVolatileLinks(ClearVolatileLinksResponse {})))
        &&& (!mutate ==> e1.unchanged(e0))
        &&& (e1.only_touches(e0, Touched { abilities: true, charge_pools: true, ..Touched::nothing() }))
        &&& (e1.world.abilities@.dom() == e0.world.abilities@.dom())
        &&& (e1.world.abilities.next_key() == e0.world.abilities.next_key())
        &&& (actor is System && e0.world.abilities@.contains_key(self.ability_id) ==> {
            let ls = e0.world.abilities@[self.ability_id].links();
            let dests = link_dests(ls, true);
            let pools = e0.world.charge_pools@;
            &&& r is Err ==> r == Err::<ActionResponse, ActionError>(ActionError::ChargePoolNotFound)
            &&& !mutate ==> (r is Ok <==> all_pools_exist(pools, dests))
            &&& mutate ==> (r is Ok <==> unlink_all(pools, dests) is Some)
            &&& mutate && r is Ok ==> {
                &&& e1.world.charge_pools@ =~= unlink_all(pools, dests)->0
                &&& relinked(
                    e0.world.abilities@,
                    e1.world.abilities@,
                    self.ability_id,
                    strip_links(ls, dests),
                )
                &&& forall|l: AbilityPoolLink| #[trigger] e1.world.abilities@[self.ability_id].links().contains(l)
                    ==> ls.contains(l) && !l.volatile
            }
        })
    }

    /// The answer to a request from `actor`, from the engine before (`e0`) and after (`e1`)
    /// the handler runs.
    pub open spec fn answer(&self, e0: Engine, e1: Engine, actor: ActionActor, mutate: bool) -> ActionResult {
        let dests = link_dests(e0.world.abilities@[self.ability_id].links(), true);
        let pools = e0.world.charge_pools@;
        if !(actor is System) {
            Err::<ActionResponse, ActionError>(ActionError::RequiresSystem)
        } else if !e0.world.abilities@.contains_key(self.ability_id) {
            Err(ActionError::AbilityNotFound)
        } else if (if mutate { unlink_all(pools, dests) is None } else { !all_pools_exist(pools, dests) }) {
            Err(ActionError::ChargePoolNotFound)
        } else {
            Ok(ActionResponse::ClearVolatileLinks(ClearVolatileLinksResponse {}))
        }
    }

    pub fn handle(
        &mut self,
        eng: &mut Engine,
        ctx: &mut ActionContext,
        actor: &ActionActor,
        version: Version,
        mutate: bool,
    ) -> (r: ActionResult)
        requires
            old(eng).wf(),
        ensures
            r == old(self).answer(*old(eng), *final(eng), *actor, mutate),
            final(eng).wf(),
            *final(self) == *old(self),
            final(ctx).commands@ == old(ctx).commands@,
            !(*actor is System) ==> r == Err::<ActionResponse, ActionError>(ActionError::RequiresSystem),
            *actor is System && !old(eng).world.abilities@.contains_key(old(self).ability_id)
                ==> r == Err::<ActionResponse, ActionError>(ActionError::AbilityNotFound),
            r is Ok ==> r == Ok::<ActionResponse, ActionError>(ActionResponse::ClearVolatileLinks(ClearVolatileLinksResponse {})),
            !mutate ==> final(eng).unchanged(*old(eng)),
            final(eng).only_touches(*old(eng), Touched { abilities: true, charge_pools: true, ..Touched::nothing() }),
            final(eng).world.abilities@.dom() == old(eng).world.abilities@.dom(),
            final(eng).world.abilities.next_key() == old(eng).world.abilities.next_key(),
            *actor is System && old(eng).world.abilities@.contains_key(old(self).ability_id) ==> {
                let ls = old(eng).world.abilities@[old(self).ability_id].links();
                let dests = link_dests(ls, true);
                let pools = old(eng).world.charge_pools@;
                &&& r is Err ==> r == Err::<ActionResponse, ActionError>(ActionError::ChargePoolNotFound)
                &&& !mutate ==> (r is Ok <==> all_pools_exist(pools, dests))
                &&& mutate ==> (r is Ok <==> unlink_all(pools, dests) is Some)
                &&& mutate && r is Ok ==> {
                    &&& final(eng).world.charge_pools@ == unlink_all(pools, dests)->0
                    &&& relinked(
                        old(eng).world.abilities@,
                        final(eng).world.abilities@,
                        old(self).ability_id,
                        strip_links(ls, dests),
                    )
                    &&& forall|l: AbilityPoolLink| #[trigger] final(eng).world.abilities@[old(self).ability_id].links().contains(l)
                        ==> ls.contains(l) && !l.volatile
                }
            },
            old(self).effect(*old(eng), *final(eng), old(ctx).commands@, final(ctx).commands@, *actor, mutate, r),
    {
        actor.require_system()?;

        let ability = get_ability(eng, self.ability_id)?;
        let dests: Vec<ID> = ability.link_dests(true);
        let ghost ls = ability.links();
        let res = remove_links_to(eng, ctx, actor, version, mutate, self.ability_id, &dests);
        proof {
            lemma_strip_own_dests(ls, true);
        }
        res?;

        Ok(ActionResponse::ClearVolatileLinks(ClearVolatileLinksResponse {}))
    }
}

} // verus!
