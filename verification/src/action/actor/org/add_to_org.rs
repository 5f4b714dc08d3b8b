use vstd::prelude::*;

use crate::action::actor::org::remove_from_org::org_link;
use crate::action::comms::lounge::create_lounge::player_refusal;
use crate::action::{CommandPacket, ActionActor, ActionContext, ActionError, ActionResponse, ActionResult};
use crate::actor::{Actor, ActorLink, ActorLinkType, ActorType, LeadershipStruct, Organization};
use crate::common::{ID, Version};
use crate::engine::{actor_is_player, org_members_are_players, Engine, Touched};
use crate::helpers::{get_org, get_player};

verus! {

#[derive(PartialEq, Eq, Structural, Clone, Debug)]
pub struct AddToOrgResponse {}

/// System action: make a player a member of an organization (dead or alive), linked to it
/// so that it has the organization's passives; with `leader`, it also becomes the leader
/// of an organization that has a leadership structure.
#[derive(PartialEq, Eq, Structural, Clone, Debug)]
pub struct AddToOrg {
    pub org_id: ID,
    pub player_id: ID,
    pub leader: bool,
}

/// The leadership of an organization after `p` joins it (as leader if `leader`).
pub open spec fn joined_leadership(l: Option<LeadershipStruct>, p: ID, leader: bool) -> Option<LeadershipStruct> {
    match l {
        Some(s) => if leader { Some(LeadershipStruct { leader: Some(p), ..s }) } else { Some(s) },
        None => None,
    }
}

impl AddToOrg {
    /// Why the player does not join, if it does not.
    pub open spec fn refusal(&self, e: Engine, actor: ActionActor) -> Option<ActionError> {
        if !(actor is System) {
            Some(ActionError::RequiresSystem)
        } else if player_refusal(e, self.player_id) is Some {
            player_refusal(e, self.player_id)
        } else if !e.world.actors@.contains_key(self.org_id) {
            Some(ActionError::ActorNotFound)
        } else if !e.world.is_org(self.org_id) {
            Some(ActionError::NotAnOrg)
        } else if e.world.org(self.org_id).members@.contains(self.player_id) {
            Some(ActionError::PlayerAlreadyInOrg)
        } else {
            None
        }
    }

    /// What joining does: the organization `org_id` gains the player as its last member
    /// (and as leader if asked and it has a leadership structure), the player gains a passive
    /// link to it (unless it has one), and no other actor changes.
    pub open spec fn joined(&self, e0: Engine, e1: Engine) -> bool {
        let p = self.player_id;
        let o = self.org_id;
        let actors0 = e0.world.actors@;
        let actors1 = e1.world.actors@;
        let o0 = e0.world.org(o);
        &&& actors1.dom() == actors0.dom()
        &&& e1.world.is_org(o)
        &&& e1.world.org(o) == (Organization {
            members: e1.world.org(o).members,
            leadership_struct: joined_leadership(o0.leadership_struct, p, self.leader),
            ..o0
        })
        &&& e1.world.org(o).members@ == o0.members@.push(p)
        &&& actors1[o] == (Actor { actor_type: actors1[o].actor_type, ..actors0[o] })
        &&& actors1[p] == (Actor { links: actors1[p].links, ..actors0[p] })
        &&& actors1[p].links@ == if actors0[p].links@.contains(org_link(o)) {
            actors0[p].links@
        } else {
            actors0[p].links@.push(org_link(o))
        }
        &&& forall|k: ID| k != p && k != o && #[trigger] actors1.contains_key(k) ==> actors1[k] == actors0[k]
    }

    /// What the handler does besides answering: its effect on the engine (from `e0` to
    /// `e1`) and on the commands (from `c0` to `c1`), given its answer `r`.
    pub open spec fn effect(
        &self,
        e0: Engine,
        e1: Engine,
        c0: Seq<CommandPacket>,
        c1: Seq<CommandPacket>,
        actor: ActionActor,
        mutate: bool,
        r: ActionResult,
    ) -> bool {
        &&& (e1.wf())
        &&& (c1 =~= c0)
        &&& (e1.only_touches(e0, Touched { actors: true, ..Touched::nothing() }))
        &&& (!mutate || r is Err ==> e1.unchanged(e0))
        &&& (mutate && r is Ok ==> self.joined(e0, e1))
    }

    /// The answer to a request from `actor`, from the engine before (`e0`) and after (`e1`)
    /// the handler runs.
    pub open spec fn answer(&self, e0: Engine, e1: Engine, actor: ActionActor, mutate: bool) -> ActionResult {
        match self.refusal(e0, actor) {
            Some(e) => Err::<ActionResponse, ActionError>(e),
            None => Ok(ActionResponse::AddToOrg(AddToOrgResponse {})),
        }
    }

    pub fn handle(
        &mut self,
        eng: &mut Engine,
        ctx: &mut ActionContext,
        actor: &ActionActor,
        version: Version,
        mutate: bool,
    ) -> (r: ActionResult)
        requires
            old(eng).wf(),
        ensures
            final(eng).wf(),
            *final(self) == *old(self),
            final(ctx).commands@ == old(ctx).commands@,
            final(eng).only_touches(*old(eng), Touched { actors: true, ..Touched::nothing() }),
            !mutate || r is Err ==> final(eng).unchanged(*old(eng)),
            r == old(self).answer(*old(eng), *final(eng), *actor, mutate),
            mutate && r is Ok ==> old(self).joined(*old(eng), *final(eng)),
            old(self).effect(*old(eng), *final(eng), old(ctx).commands@, final(ctx).commands@, *actor, mutate, r),
    {
        actor.require_system()?;
        let _ = get_player(eng, self.player_id)?;
        let org = get_org(eng, self.org_id)?;
        if org.has_member(self.player_id) {
            return Err(ActionError::PlayerAlreadyInOrg);
        }
        if mutate {
            let ghost e0 = *eng;
            let mut o: Actor = eng.world.actors.take(self.org_id).unwrap();
            match &mut o.actor_type {
                ActorType::Organization(org) => {
                    org.add_member(self.player_id);
                    if self.leader {
                        match &mut org.leadership_struct {
                            Some(l) => {
                                l.leader = Some(self.player_id);
                            },
                            None => {},
                        }
                    }
                },
                ActorType::Player(_) => {},
            }
            eng.world.actors.put(self.org_id, o);
            let mut a: Actor = eng.world.actors.take(self.player_id).unwrap();
            a.add_link(ActorLink { link_type: ActorLinkType::Passive, link_dest: self.org_id });
            eng.world.actors.put(self.player_id, a);
            proof {
                let actors0 = e0.world.actors@;
                let actors2 = eng.world.actors@;
                assert(actors2.dom() =~= actors0.dom());
                assert forall|m: ID| #[trigger] actor_is_player(actors2, m) == actor_is_player(actors0, m) by {}
                assert forall|k: ID| #[trigger] actors2.contains_key(k) implies org_members_are_players(actors2, actors2[k]) by {
                    assert(org_members_are_players(actors0, actors0[k]));
                    if k == self.org_id {
                        assert forall|m: ID| #[trigger] eng.world.org(k).members@.contains(m) implies actor_is_player(actors2, m) by {
                            if m != self.player_id {
                                assert(e0.world.org(k).members@.contains(m));
                            }
                        }
                    }
                }
            }
        }
        Ok(ActionResponse::AddToOrg(AddToOrgResponse {}))
    }
}

} // verus!
