use vstd::prelude::*;

use crate::action::{CommandPacket, ActionActor, ActionContext, ActionError, ActionResponse, ActionResult};
use crate::actor::{Actor, ActorType, LeadershipStruct, Organization};
use crate::common::{ID, Version};
use crate::engine::{actor_is_player, org_members_are_players, Engine, Touched};
use crate::helpers::get_org;

verus! {

#[derive(PartialEq, Eq, Structural, Clone, Debug)]
pub struct ChangeOrgLeaderResponse {}

/// System action: make a member (dead or alive) the leader of an organization that has a
/// leadership structure, or leave it without a leader.
#[derive(PartialEq, Eq, Structural, Clone, Debug)]
pub struct ChangeOrgLeader {
    pub org_id: ID,
    pub leader: Option<ID>,
}

impl ChangeOrgLeader {
    /// Why the leader is not changed, if it is not.
    pub open spec fn refusal(&self, e: Engine, actor: ActionActor) -> Option<ActionError> {
        let o = e.world.org(self.org_id);
        if !(actor is System) {
            Some(ActionError::RequiresSystem)
        } else if !e.world.actors@.contains_key(self.org_id) {
            Some(ActionError::ActorNotFound)
        } else if !e.world.is_org(self.org_id) {
            Some(ActionError::NotAnOrg)
        } else if o.leadership_struct is None {
            Some(ActionError::NoLeadership)
        } else if self.leader matches Some(p) && !o.members@.contains(p) {
            Some(ActionError::PlayerNotInOrg)
        } else {
            None
        }
    }

    /// What the handler does besides answering: its effect on the engine (from `e0` to
    /// `e1`) and on the commands (from `c0` to `c1`), given its answer `r`.
    pub open spec fn effect(
        &self,
        e0: Engine,
        e1: Engine,
        c0: Seq<CommandPacket>,
        c1: Seq<CommandPacket>,
        actor: ActionActor,
        mutate: bool,
        r: ActionResult,
    ) -> bool {
        &&& (e1.wf())
        &&& (c1 =~= c0)
        &&& (e1.only_touches(e0, Touched { actors: true, ..Touched::nothing() }))
        &&& (!mutate || r is Err ==> e1.unchanged(e0))
        &&& (mutate && r is Ok ==> {
            let o = self.org_id;
            let o0 = e0.world.org(o);
            &&& e1.world.actors@ =~= e0.world.actors@.insert(o, e1.world.actors@[o])
            &&& e1.world.actors@[o] == (Actor {
                actor_type: e1.world.actors@[o].actor_type,
                ..e0.world.actors@[o]
            })
            &&& e1.world.is_org(o)
            &&& e1.world.org(o) == (Organization {
                leadership_struct: Some(LeadershipStruct { leader: self.leader, ..o0.leadership_struct->0 }),
                ..o0
            })
        })
    }

    /// The answer to a request from `actor`, from the engine before (`e0`) and after (`e1`)
    /// the handler runs.
    pub open spec fn answer(&self, e0: Engine, e1: Engine, actor: ActionActor, mutate: bool) -> ActionResult {
        match self.refusal(e0, actor) {
            Some(e) => Err::<ActionResponse, ActionError>(e),
            None => Ok(ActionResponse::ChangeOrgLeader(ChangeOrgLeaderResponse {})),
        }
    }

    pub fn handle(
        &mut self,
        eng: &mut Engine,
        ctx: &mut ActionContext,
        actor: &ActionActor,
        version: Version,
        mutate: bool,
    ) -> (r: ActionResult)
        requires
            old(eng).wf(),
        ensures
            final(eng).wf(),
            *final(self) == *old(self),
            final(ctx).commands@ == old(ctx).commands@,
            final(eng).only_touches(*old(eng), Touched { actors: true, ..Touched::nothing() }),
            !mutate || r is Err ==> final(eng).unchanged(*old(eng)),
            r == old(self).answer(*old(eng), *final(eng), *actor, mutate),
            mutate && r is Ok ==> {
                let o = old(self).org_id;
                let o0 = old(eng).world.org(o);
                &&& final(eng).world.actors@ == old(eng).world.actors@.insert(o, final(eng).world.actors@[o])
                &&& final(eng).world.actors@[o] == (Actor {
                    actor_type: final(eng).world.actors@[o].actor_type,
                    ..old(eng).world.actors@[o]
                })
                &&& final(eng).world.is_org(o)
                &&& final(eng).world.org(o) == (Organization {
                    leadership_struct: Some(LeadershipStruct { leader: old(self).leader, ..o0.leadership_struct->0 }),
                    ..o0
                })
            },
            old(self).effect(*old(eng), *final(eng), old(ctx).commands@, final(ctx).commands@, *actor, mutate, r),
    {
        actor.require_system()?;
        let org = get_org(eng, self.org_id)?;
        if org.leadership_struct.is_none() {
            return Err(ActionError::NoLeadership);
        }
        if let Some(p) = self.leader {
            if !org.has_member(p) {
                return Err(ActionError::PlayerNotInOrg);
            }
        }
        if mutate {
            let ghost e0 = *eng;
            let mut o: Actor = eng.world.actors.take(self.org_id).unwrap();
            match &mut o.actor_type {
                ActorType::Organization(org) => {
                    match &mut org.leadership_struct {
                        Some(l) => {
                            l.leader = self.leader;
                        },
                        None => {},
                    }
                },
                ActorType::Player(_) => {},
            }
            eng.world.actors.put(self.org_id, o);
            proof {
                let actors0 = e0.world.actors@;
                let actors2 = eng.world.actors@;
                assert(actors2 =~= actors0.insert(self.org_id, actors2[self.org_id]));
                assert forall|m: ID| #[trigger] actor_is_player(actors2, m) == actor_is_player(actors0, m) by {}
                assert forall|k: ID| #[trigger] actors2.contains_key(k) implies org_members_are_players(actors2, actors2[k]) by {
                    assert(org_members_are_players(actors0, actors0[k]));
                }
            }
        }
        Ok(ActionResponse::ChangeOrgLeader(ChangeOrgLeaderResponse {}))
    }
}

} // verus!
