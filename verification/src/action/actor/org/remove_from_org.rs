use vstd::prelude::*;

use crate::action::{CommandPacket, ActionActor, ActionContext, ActionError, ActionResponse, ActionResult};
use crate::actor::{link_is_not, Actor, ActorLink, ActorLinkType, ActorType, Organization};
use crate::common::{ID, Version};
use crate::engine::{actor_is_player, org_members_are_players, Engine, Touched};
use crate::helpers::{get_actor, get_org};
use crate::idset::{lemma_without_contains, without};

verus! {

#[derive(PartialEq, Eq, Structural, Clone, Debug)]
pub struct RemoveFromOrgResponse {}

/// System action: take a member out of an organization; the member loses its passive
/// link to the organization.
#[derive(PartialEq, Eq, Structural, Clone, Debug)]
pub struct RemoveFromOrg {
    pub actor_id: ID,
    pub org_id: ID,
}

/// The link through which a member of organization `org` holds its passives.
pub open spec fn org_link(org: ID) -> ActorLink {
    ActorLink { link_type: ActorLinkType::Passive, link_dest: org }
}

impl RemoveFromOrg {
    /// Why the member is not taken out, if it is not.
    pub open spec fn refusal(&self, e: Engine, actor: ActionActor) -> Option<ActionError> {
        if !(actor is System) {
            Some(ActionError::RequiresSystem)
        } else if !e.world.actors@.contains_key(self.actor_id) {
            Some(ActionError::ActorNotFound)
        } else if !e.world.actors@.contains_key(self.org_id) {
            Some(ActionError::ActorNotFound)
        } else if !e.world.is_org(self.org_id) {
            Some(ActionError::NotAnOrg)
        } else if !e.world.org(self.org_id).members@.contains(self.actor_id) {
            Some(ActionError::PlayerNotInOrg)
        } else {
            None
        }
    }

    /// What leaving does: the member leaves the organization `org_id`, loses its passive
    /// links to it, and no other actor changes.
    pub open spec fn left(&self, e0: Engine, e1: Engine) -> bool {
        let a = self.actor_id;
        let o = self.org_id;
        let actors0 = e0.world.actors@;
        let actors1 = e1.world.actors@;
        &&& actors1.dom() == actors0.dom()
        &&& e1.world.is_org(o)
        &&& e1.world.org(o) == (Organization { members: e1.world.org(o).members, ..e0.world.org(o) })
        &&& e1.world.org(o).members@ == without(e0.world.org(o).members@, a)
        &&& actors1[o] == (Actor { actor_type: actors1[o].actor_type, ..actors0[o] })
        &&& actors1[a] == (Actor { links: actors1[a].links, ..actors0[a] })
        &&& actors1[a].links@ == actors0[a].links@.filter(link_is_not(org_link(o)))
        &&& forall|k: ID| k != a && k != o && #[trigger] actors1.contains_key(k) ==> actors1[k] == actors0[k]
    }

    /// What the handler does besides answering: its effect on the engine (from `e0` to
    /// `e1`) and on the commands (from `c0` to `c1`), given its answer `r`.
    pub open spec fn effect(
        &self,
        e0: Engine,
        e1: Engine,
        c0: Seq<CommandPacket>,
        c1: Seq<CommandPacket>,
        actor: ActionActor,
        mutate: bool,
        r: ActionResult,
    ) -> bool {
        &&& (e1.wf())
        &&& (c1 =~= c0)
        &&& (e1.only_touches(e0, Touched { actors: true, ..Touched::nothing() }))
        &&& (!mutate || r is Err ==> e1.unchanged(e0))
        &&& (mutate && r is Ok ==> self.left(e0, e1))
    }

    /// The answer to a request from `actor`, from the engine before (`e0`) and after (`e1`)
    /// the handler runs.
    pub open spec fn answer(&self, e0: Engine, e1: Engine, actor: ActionActor, mutate: bool) -> ActionResult {
        match self.refusal(e0, actor) {
            Some(e) => Err::<ActionResponse, ActionError>(e),
            None => Ok(ActionResponse::RemoveFromOrg(RemoveFromOrgResponse {})),
        }
    }

    pub fn handle(
        &mut self,
        eng: &mut Engine,
        ctx: &mut ActionContext,
        actor: &ActionActor,
        version: Version,
        mutate: bool,
    ) -> (r: ActionResult)
        requires
            old(eng).wf(),
        ensures
            final(eng).wf(),
            *final(self) == *old(self),
            final(ctx).commands@ == old(ctx).commands@,
            final(eng).only_touches(*old(eng), Touched { actors: true, ..Touched::nothing() }),
            !mutate || r is Err ==> final(eng).unchanged(*old(eng)),
            r == old(self).answer(*old(eng), *final(eng), *actor, mutate),
            mutate && r is Ok ==> old(self).left(*old(eng), *final(eng)),
            old(self).effect(*old(eng), *final(eng), old(ctx).commands@, final(ctx).commands@, *actor, mutate, r),
    {
        actor.require_system()?;
        let _ = get_actor(eng, self.actor_id)?;
        let org = get_org(eng, self.org_id)?;
        if !org.has_member(self.actor_id) {
            return Err(ActionError::PlayerNotInOrg);
        }
        if mutate {
            let ghost e0 = *eng;
            let mut o: Actor = eng.world.actors.take(self.org_id).unwrap();
            match &mut o.actor_type {
                ActorType::Organization(org) => {
                    org.remove_member(self.actor_id);
                },
                ActorType::Player(_) => {},
            }
            eng.world.actors.put(self.org_id, o);
            let ghost e1 = *eng;
            let mut a: Actor = eng.world.actors.take(self.actor_id).unwrap();
            a.sever_link(ActorLink { link_type: ActorLinkType::Passive, link_dest: self.org_id });
            eng.world.actors.put(self.actor_id, a);
            proof {
                let actors0 = e0.world.actors@;
                let actors2 = eng.world.actors@;
                assert(actors2.dom() =~= actors0.dom());
                lemma_without_contains(e0.world.org(self.org_id).members@, self.actor_id);
                assert forall|m: ID| #[trigger] actor_is_player(actors2, m) == actor_is_player(actors0, m) by {}
                assert forall|k: ID| #[trigger] actors2.contains_key(k) implies org_members_are_players(actors2, actors2[k]) by {
                    assert(org_members_are_players(actors0, actors0[k]));
                }
            }
        }
        Ok(ActionResponse::RemoveFromOrg(RemoveFromOrgResponse {}))
    }
}

} // verus!
