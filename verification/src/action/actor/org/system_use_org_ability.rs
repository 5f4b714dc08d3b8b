use vstd::prelude::*;

use crate::ability::{AbilityBehaviour, AbilityInterface};
use crate::action::ability::use_ability::UseAbility;
use crate::action::actor::player::kill::{killed, kill_result};
use crate::action::{Action, ActionActor, ActionContext, ActionError, ActionResponse, ActionResult, CommandPacket, OrgActor};
use crate::actor::{Actor, ActorType, Modifier, OrgAbility, Organization};
use crate::common::{ID, PollKey, Version};
use crate::poll::{Poll, PollPolicy, PollVisibility, VoterPolicy};
use crate::config::Role;
use crate::engine::{same_store, Engine, Touched};
use crate::helpers::get_org;
use crate::indexset::{role_entries, roles_contains, roles_insert, roles_new};

verus! {

#[derive(PartialEq, Eq, Structural, Clone, Debug)]
pub struct SystemUseOrgAbilityResponse {
    /// The poll opened to decide the use, when the use needs a vote.
    pub poll_id: Option<PollKey>,
}

/// System action: an organization uses one of its abilities on behalf of a member.  The
/// ability's settings decide: enough present members, every required role among them, and
/// the user being the leader.  When the use needs a vote, a poll of the present members is
/// opened instead, which carries the use out without a vote once decided.  Nothing
/// happens if there is no such organization.
#[derive(PartialEq, Eq, Clone, Debug)]
pub struct SystemUseOrgAbility {
    pub org_id: ID,
    pub user_id: ID,
    pub ability_id: ID,
    pub ability_args: AbilityBehaviour,
    pub dont_vote: bool,
}

/// Whether actor `m` is present (has no `NoPresence` modifier).
pub open spec fn is_present(actors: Map<ID, Actor>, m: ID) -> bool {
    !actors[m].has_modifier_spec(Modifier::NoPresence)
}

/// The role of player `m`.
pub open spec fn role_of(actors: Map<ID, Actor>, m: ID) -> Role {
    actors[m].actor_type->Player_0.role
}

/// How many of the members `ms` are present.
pub open spec fn present_count(actors: Map<ID, Actor>, ms: Seq<ID>) -> nat
    decreases ms.len(),
{
    if ms.len() == 0 {
        0
    } else {
        present_count(actors, ms.drop_last()) + if is_present(actors, ms.last()) { 1nat } else { 0nat }
    }
}

/// Whether some present member among `ms` has role `r`.
pub open spec fn role_present(actors: Map<ID, Actor>, ms: Seq<ID>, r: Role) -> bool {
    exists|i: int| 0 <= i < ms.len() && is_present(actors, ms[i]) && #[trigger] role_of(actors, ms[i]) == r
}

/// Whether every role of `req` is held by a present member among `ms`.
pub open spec fn roles_present(actors: Map<ID, Actor>, ms: Seq<ID>, req: Seq<Role>) -> bool {
    forall|j: int| 0 <= j < req.len() ==> #[trigger] role_present(actors, ms, req[j])
}

/// Organization `org` keeps settings for ability `ability`, and a leadership structure if
/// they ask for a leader (the engine crashes otherwise).
pub open spec fn org_settings_hold(e: Engine, org: ID, ability: ID) -> bool {
    e.world.is_org(org) ==> {
        let o = e.world.org(org);
        &&& o.ability_settings(ability) is Some
        &&& o.ability_settings(ability)->0.usage_policies.require_leader ==> o.leadership_struct is Some
    }
}

impl SystemUseOrgAbility {
    /// The use of the ability that the organization makes for its member.
    pub open spec fn inner(&self) -> UseAbility {
        UseAbility { ability_id: self.ability_id, ability_args: self.ability_args }
    }

    /// The actor that the ability is used as.
    pub open spec fn as_org(&self) -> ActionActor {
        ActionActor::Organization(OrgActor { org_id: self.org_id, player_id: self.user_id })
    }

    /// Why the organization's rules refuse the use, if they do.
    /// The outcome of the use by the system, from the engine before (`e0`) and after (`e1`).
    pub open spec fn outcome(&self, e0: Engine, e1: Engine, mutate: bool) -> Result<Option<PollKey>, ActionError> {
        if !e0.world.is_org(self.org_id) {
            Ok(None)
        } else {
            match self.org_refusal(e0) {
                Some(e) => Err(e),
                None => if self.needs_vote(e0) {
                    Ok(Some(if mutate { e0.polls.next_key() as PollKey } else { 0 }))
                } else {
                    match self.inner().refusal(e0, self.as_org(), mutate) {
                        Some(e) => Err(e),
                        None => match kill_result(self.ability_args.target(), e0, e1, ActionActor::System) {
                            Err(e) => Err(e),
                            Ok(_) => Ok(None),
                        },
                    }
                },
            }
        }
    }

    /// Whether the use must be put to a vote first.
    pub open spec fn needs_vote(&self, e: Engine) -> bool {
        !self.dont_vote && e.world.org(self.org_id).ability_settings(self.ability_id)->0.usage_policies.require_vote
    }

    /// The poll that decides the use: the present members of the organization vote, a
    /// majority decides, and the decision carries the use out without a further vote.
    pub open spec fn poll(&self, e: Engine) -> Poll {
        Poll {
            voter_policy: VoterPolicy::Present,
            visibility: PollVisibility::Org(self.org_id),
            update_policy: PollPolicy::Majority,
            timeout_policy: PollPolicy::Majority,
            payload: Box::new(Action::SystemUseOrgAbility(SystemUseOrgAbility { dont_vote: true, ..*self })),
            duration: Some(e.config.defaults.org_vote_time),
        }
    }

    pub open spec fn org_refusal(&self, e: Engine) -> Option<ActionError> {
        let o = e.world.org(self.org_id);
        let s = o.ability_settings(self.ability_id)->0;
        let actors = e.world.actors@;
        if present_count(actors, o.members@) < s.require_members {
            Some(ActionError::NotEnoughMembers)
        } else if !roles_present(actors, o.members@, s.require_roles@) {
            Some(ActionError::RequiredRolesNotPresent)
        } else if s.usage_policies.require_leader && o.leadership_struct->0.leader != Some(self.user_id) {
            Some(ActionError::PlayerIsNotLeader)
        } else {
            None
        }
    }

    /// What a use by the system does, from the engine and commands before (`e0`, `c0`) to
    /// after (`e1`, `c1`), given whether it succeeded (`ok`): nothing, if there is no such
    /// organization or its rules refuse; the poll opened, if a vote is needed; else what
    /// the use of the ability does.
    pub open spec fn done(&self, e0: Engine, e1: Engine, c0: Seq<CommandPacket>, c1: Seq<CommandPacket>, mutate: bool, ok: bool) -> bool {
        &&& (!e0.world.is_org(self.org_id) || self.org_refusal(e0) is Some ==> e1.unchanged(e0) && c1 == c0)
        &&& (e0.world.is_org(self.org_id) && self.org_refusal(e0) is None && self.needs_vote(e0) ==> {
            &&& c1 == c0
            &&& e1.only_touches(e0, Touched { polls: true, ..Touched::nothing() })
            &&& (mutate ==> {
                &&& e1.polls@ == e0.polls@.insert(e0.polls.next_key() as PollKey, self.poll(e0))
                &&& e1.polls.next_key() == e0.polls.next_key() + 1
            })
        })
        &&& (e0.world.is_org(self.org_id) && self.org_refusal(e0) is None && !self.needs_vote(e0) ==> {
            &&& same_store(e1.polls, e0.polls)
            &&& (self.inner().refusal(e0, self.as_org(), mutate) is Some ==> c1 == c0)
            &&& (ok ==> self.ability_args.cmds_added(c0, c1, e1))
            &&& (mutate && ok ==> {
                &&& e1.world.charge_pools@ == self.inner().charges(e0, true).pools
                &&& killed(self.ability_args.target(), self.ability_args.killer(self.as_org()), e0, e1)
            })
        })
    }

    /// What the handler does besides answering: its effect on the engine (from `e0` to
    /// `e1`) and on the commands (from `c0` to `c1`), given its answer `r`.
    pub open spec fn effect(
        &self,
        e0: Engine,
        e1: Engine,
        c0: Seq<CommandPacket>,
        c1: Seq<CommandPacket>,
        actor: ActionActor,
        mutate: bool,
        r: ActionResult,
    ) -> bool {
        &&& (e1.wf())
        &&& (e1.only_touches(
            e0,
            Touched { actors: true, abilities: true, charge_pools: true, channels: true, jobs: true, polls: true, ..Touched::nothing() },
        ))
        &&& (!mutate ==> e1.unchanged(e0))
        &&& (!(actor is System) ==> r == Err::<ActionResponse, ActionError>(ActionError::RequiresSystem))
        &&& (actor is System ==> r == match self.outcome(e0, e1, mutate) {
            Ok(p) => Ok(ActionResponse::SystemUseOrgAbility(SystemUseOrgAbilityResponse { poll_id: p })),
            Err(e) => Err::<ActionResponse, ActionError>(e),
        })
        &&& (!(actor is System) ==> e1.unchanged(e0) && c1 =~= c0)
        &&& (actor is System ==> self.done(e0, e1, c0, c1, mutate, r is Ok))
    }

    /// The answer to a request from `actor`, from the engine before (`e0`) and after (`e1`)
    /// the handler runs.
    pub open spec fn answer(&self, e0: Engine, e1: Engine, actor: ActionActor, mutate: bool) -> ActionResult {
        if !(actor is System) {
            Err::<ActionResponse, ActionError>(ActionError::RequiresSystem)
        } else {
            match self.outcome(e0, e1, mutate) {
                Ok(p) => Ok(ActionResponse::SystemUseOrgAbility(SystemUseOrgAbilityResponse { poll_id: p })),
                Err(e) => Err::<ActionResponse, ActionError>(e),
            }
        }
    }

    #[verifier::loop_isolation(false)]
    pub fn handle(
        &mut self,
        eng: &mut Engine,
        ctx: &mut ActionContext,
        actor: &ActionActor,
        version: Version,
        mutate: bool,
    ) -> (r: ActionResult)
        requires
            old(eng).wf(),
            org_settings_hold(*old(eng), old(self).org_id, old(self).ability_id),
            old(self).ability_args.ready(*old(eng)),
        ensures
            r == old(self).answer(*old(eng), *final(eng), *actor, mutate),
            final(eng).wf(),
            *final(self) == *old(self),
            final(eng).only_touches(
                *old(eng),
                Touched { actors: true, abilities: true, charge_pools: true, channels: true, jobs: true, polls: true, ..Touched::nothing() },
            ),
            !mutate ==> final(eng).unchanged(*old(eng)),
            !(*actor is System) ==> r == Err::<ActionResponse, ActionError>(ActionError::RequiresSystem),
            *actor is System ==> r == match old(self).outcome(*old(eng), *final(eng), mutate) {
                Ok(p) => Ok(ActionResponse::SystemUseOrgAbility(SystemUseOrgAbilityResponse { poll_id: p })),
                Err(e) => Err::<ActionResponse, ActionError>(e),
            },
            !(*actor is System) ==> final(eng).unchanged(*old(eng)) && final(ctx).commands@ == old(ctx).commands@,
            *actor is System ==> old(self).done(*old(eng), *final(eng), old(ctx).commands@, final(ctx).commands@, mutate, r is Ok),
            old(self).effect(*old(eng), *final(eng), old(ctx).commands@, final(ctx).commands@, *actor, mutate, r),
    {
        actor.require_system()?;

        let org: &Organization = match get_org(eng, self.org_id) {
            Ok(o) => o,
            Err(_) => {
                return Ok(ActionResponse::SystemUseOrgAbility(SystemUseOrgAbilityResponse { poll_id: None }));
            },
        };
        let settings: &OrgAbility = org.get_ability(self.ability_id).unwrap();
        let ghost actors = eng.world.actors@;
        let ghost ms = org.members@;

        proof {
            assert(crate::engine::org_members_are_players(actors, actors[self.org_id]));
            assert forall|k: int| 0 <= k < ms.len() implies crate::engine::actor_is_player(actors, #[trigger] ms[k]) by {
                assert(ms.contains(ms[k]));
            }
        }
        let n: usize = org.members.len();
        let mut count: usize = 0;
        let mut roles = roles_new();
        let mut i: usize = 0;
        while i < n
            invariant
                n == ms.len(),
                i <= n,
                ms == org.members@,
                actors == eng.world.actors@,
                forall|k: int| 0 <= k < ms.len() ==> crate::engine::actor_is_player(actors, #[trigger] ms[k]),
                count as nat == present_count(actors, ms.take(i as int)),
                count <= i,
                forall|r: Role| role_entries(roles).contains(r) <==> role_present(actors, ms.take(i as int), r),
            decreases n - i,
        {
            let m: ID = org.members[i];
            let ghost roles0 = roles;
            proof {
                assert(ms.take(i as int + 1).drop_last() =~= ms.take(i as int));
                assert(ms.take(i as int + 1).last() == m);
                assert(actors.contains_key(m));
            }
            let a: &Actor = eng.world.actors.get(m).unwrap();
            let present: bool = !a.has_modifier(Modifier::NoPresence);
            if present {
                count = count + 1;
                let role: Role = match &a.actor_type {
                    ActorType::Player(p) => p.role,
                    ActorType::Organization(_) => Role::Civilian,
                };
                assert(role == role_of(actors, m));
                let added: bool = roles_insert(&mut roles, role);
                proof {
                    if added {
                        let s = role_entries(roles);
                        assert(s[s.len() - 1] == role);
                    }
                    assert forall|r: Role| role_entries(roles).contains(r) == (role_entries(roles0).contains(r) || r == role) by {
                        if added && role_entries(roles0).contains(r) {
                            let k = choose|k: int| 0 <= k < role_entries(roles0).len() && role_entries(roles0)[k] == r;
                            assert(role_entries(roles)[k] == r);
                        }
                    }
                }
            }
            proof {
                let t0 = ms.take(i as int);
                let t1 = ms.take(i as int + 1);
                assert(forall|r: Role| role_entries(roles).contains(r) == (role_entries(roles0).contains(r) || (present && role_of(actors, m) == r)));
                assert forall|r: Role| role_entries(roles).contains(r) <==> role_present(actors, t1, r) by {
                    if role_present(actors, t1, r) {
                        let k = choose|k: int| 0 <= k < t1.len() && is_present(actors, t1[k]) && #[trigger] role_of(actors, t1[k]) == r;
                        if k < i {
                            assert(t0[k] == t1[k]);
                            assert(role_present(actors, t0, r));
                        }
                    }
                    if role_present(actors, t0, r) {
                        let k = choose|k: int| 0 <= k < t0.len() && is_present(actors, t0[k]) && #[trigger] role_of(actors, t0[k]) == r;
                        assert(t1[k] == t0[k]);
                        assert(role_present(actors, t1, r));
                    }
                    if present && role_of(actors, m) == r {
                        assert(t1[i as int] == m);
                        assert(role_present(actors, t1, r));
                    }
                }
            }
            i = i + 1;
        }
        proof {
            assert(ms.take(n as int) =~= ms);
        }

        if count < settings.require_members as usize {
            return Err(ActionError::NotEnoughMembers);
        }

        let nr: usize = settings.require_roles.len();
        let mut j: usize = 0;
        while j < nr
            invariant
                nr == settings.require_roles@.len(),
                j <= nr,
                forall|r: Role| role_entries(roles).contains(r) <==> role_present(actors, ms, r),
                forall|k: int| 0 <= k < j ==> #[trigger] role_present(actors, ms, settings.require_roles@[k]),
            decreases nr - j,
        {
            let role: Role = settings.require_roles[j];
            if !roles_contains(&roles, &role) {
                return Err(ActionError::RequiredRolesNotPresent);
            }
            j = j + 1;
        }

        let policies = settings.usage_policies;
        if policies.require_leader {
            let leader: Option<ID> = match &org.leadership_struct {
                Some(l) => l.leader,
                None => None,
            };
            if leader != Some(self.user_id) {
                return Err(ActionError::PlayerIsNotLeader);
            }
        }
        if !self.dont_vote && policies.require_vote {
            let mut poll_id: PollKey = 0;
            if mutate {
                let payload = SystemUseOrgAbility {
                    org_id: self.org_id,
                    user_id: self.user_id,
                    ability_id: self.ability_id,
                    ability_args: self.ability_args.duplicate(),
                    dont_vote: true,
                };
                poll_id = eng.polls.add(Poll {
                    voter_policy: VoterPolicy::Present,
                    visibility: PollVisibility::Org(self.org_id),
                    update_policy: PollPolicy::Majority,
                    timeout_policy: PollPolicy::Majority,
                    payload: Box::new(Action::SystemUseOrgAbility(payload)),
                    duration: Some(eng.config.defaults.org_vote_time),
                });
            }
            return Ok(ActionResponse::SystemUseOrgAbility(SystemUseOrgAbilityResponse { poll_id: Some(poll_id) }));
        }

        let mut inner = UseAbility { ability_id: self.ability_id, ability_args: self.ability_args.duplicate() };
        let org_actor = ActionActor::Organization(OrgActor { org_id: self.org_id, player_id: self.user_id });
        inner.handle(eng, ctx, &org_actor, version, mutate)?;
        Ok(ActionResponse::SystemUseOrgAbility(SystemUseOrgAbilityResponse { poll_id: None }))
    }
}

} // verus!
