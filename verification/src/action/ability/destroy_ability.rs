use vstd::prelude::*;

use crate::ability::link_dests;
use crate::action::ability::remove_link::{all_pools_exist, remove_links_to, unlink_all};
use crate::action::command::Command;
use crate::action::comms::bug::destroy_bug::DestroyBug;
use crate::action::{ActionActor, ActionContext, ActionError, ActionResponse, ActionResult, CommandPacket};
use crate::actor::{Actor, ActorType, Player};
use crate::bug::{Bug, BugSource};
use crate::common::{ID, Time, Version};
use crate::engine::{actor_is_player, lemma_same_actor_types, Engine, Touched};
use crate::helpers::{get_ability, get_bug};
use crate::idset::{lemma_without_contains, without};

verus! {

#[derive(PartialEq, Eq, Structural, Clone, Debug)]
pub struct DestroyAbilityResponse {}

/// System action: destroy an ability for good: its pool links go (each pool losing a
/// link), every bug it logs for is destroyed, its owner no longer lists it, and it leaves
/// the world.
#[derive(PartialEq, Eq, Structural, Clone, Debug)]
pub struct DestroyAbility {
    pub ability_id: ID,
}

/// Whether bug `k` logs for ability `aid`.
pub open spec fn logs_for(bugs: Map<ID, Bug>, aid: ID, k: ID) -> bool {
    bugs.contains_key(k) && bugs[k].source == BugSource::Ability(aid)
}

/// The packets that report the deletion of the bugs among the first `n` keys that log for
/// ability `aid`, in key order.
pub open spec fn bug_deletions(bugs: Map<ID, Bug>, aid: ID, n: nat, t: Time) -> Seq<CommandPacket>
    decreases n,
{
    if n == 0 {
        Seq::<CommandPacket>::empty()
    } else {
        let prev = bug_deletions(bugs, aid, (n - 1) as nat, t);
        let k = (n - 1) as ID;
        if logs_for(bugs, aid, k) {
            prev.push(CommandPacket { cmd: Command::DeleteBug { bug_id: k }, recipient: None, timestamp: t })
        } else {
            prev
        }
    }
}

/// Actor `k` after the bugs of `bugs` below key `n` that log for `aid` are taken off
/// their targets, and ability `aid` off the list of `owner`.
pub open spec fn actor_cleared(a0: Actor, a1: Actor, k: ID, bugs: Map<ID, Bug>, aid: ID, n: int, owner: Option<ID>) -> bool {
    &&& a1 == (Actor { actor_type: a1.actor_type, abilities: a1.abilities, ..a0 })
    &&& a1.abilities@ == if owner == Some(k) { without(a0.abilities@, aid) } else { a0.abilities@ }
    &&& (a0.actor_type is Organization ==> a1.actor_type == a0.actor_type)
    &&& (a0.actor_type is Player ==> {
        let p0 = a0.actor_type->Player_0;
        let p1 = a1.actor_type->Player_0;
        &&& a1.actor_type is Player
        &&& p1 == (Player { bugs: p1.bugs, ..p0 })
        &&& forall|b: ID| #[trigger] p1.bugs@.contains(b) <==> p0.bugs@.contains(b)
            && !((b as int) < n && logs_for(bugs, aid, b) && bugs[b].target_id == k)
    })
}

/// The actors after the bugs of `bugs` below key `n` that log for `aid` are taken off
/// their targets, and ability `aid` off the list of `owner`.
pub open spec fn actors_cleared(
    old: Map<ID, Actor>,
    new: Map<ID, Actor>,
    bugs: Map<ID, Bug>,
    aid: ID,
    n: int,
    owner: Option<ID>,
) -> bool {
    &&& new.dom() == old.dom()
    &&& forall|k: ID| #[trigger] new.contains_key(k) ==> actor_cleared(old[k], new[k], k, bugs, aid, n, owner)
}

impl DestroyAbility {
    /// Why the ability is not destroyed, if it is not.
    pub open spec fn refusal(&self, e: Engine, actor: ActionActor, mutate: bool) -> Option<ActionError> {
        let dests = link_dests(e.world.abilities@[self.ability_id].links(), false);
        if !(actor is System) {
            Some(ActionError::RequiresSystem)
        } else if !e.world.abilities@.contains_key(self.ability_id) {
            Some(ActionError::AbilityNotFound)
        } else if (if mutate {
            unlink_all(e.world.charge_pools@, dests) is None
        } else {
            !all_pools_exist(e.world.charge_pools@, dests)
        }) {
            Some(ActionError::ChargePoolNotFound)
        } else {
            None
        }
    }

    /// What the handler does besides answering: its effect on the engine (from `e0` to
    /// `e1`) and on the commands (from `c0` to `c1`), given its answer `r`.
    pub open spec fn effect(
        &self,
        e0: Engine,
        e1: Engine,
        c0: Seq<CommandPacket>,
        c1: Seq<CommandPacket>,
        actor: ActionActor,
        mutate: bool,
        r: ActionResult,
    ) -> bool {
        &&& (e1.wf())
        &&& (e1.only_touches(
            e0,
            Touched { actors: true, abilities: true, charge_pools: true, bugs: true, ..Touched::nothing() },
        ))
        &&& (!mutate ==> e1.unchanged(e0))
        &&& (!(actor is System) || !e0.world.abilities@.contains_key(self.ability_id) ==> e1.unchanged(e0))
        &&& (r is Err ==> c1 =~= c0)
        &&& (r is Ok ==> c1 =~= c0 + bug_deletions(
            e0.world.bugs@,
            self.ability_id,
            e0.world.bugs.next_key() as nat,
            e0.time,
        ))
        &&& (mutate && r is Ok ==> {
            let aid = self.ability_id;
            let bugs0 = e0.world.bugs@;
            let a0 = e0.world.abilities@[aid];
            &&& e1.world.charge_pools@ =~= unlink_all(e0.world.charge_pools@, link_dests(a0.links(), false))->0
            &&& e1.world.abilities@ =~= e0.world.abilities@.remove(aid)
            &&& e1.world.bugs@ =~= bugs0.restrict(bugs0.dom().filter(|k: ID| !logs_for(bugs0, aid, k)))
            &&& actors_cleared(
                e0.world.actors@,
                e1.world.actors@,
                bugs0,
                aid,
                e0.world.bugs.next_key(),
                a0.ownership_struct.owner,
            )
        })
    }

    /// The answer to a request from `actor`, from the engine before (`e0`) and after (`e1`)
    /// the handler runs.
    pub open spec fn answer(&self, e0: Engine, e1: Engine, actor: ActionActor, mutate: bool) -> ActionResult {
        match self.refusal(e0, actor, mutate) {
            Some(e) => Err::<ActionResponse, ActionError>(e),
            None => Ok(ActionResponse::DestroyAbility(DestroyAbilityResponse {})),
        }
    }

    #[verifier::loop_isolation(false)]
    #[verifier::rlimit(40)]
    pub fn handle(
        &mut self,
        eng: &mut Engine,
        ctx: &mut ActionContext,
        actor: &ActionActor,
        version: Version,
        mutate: bool,
    ) -> (r: ActionResult)
        requires
            old(eng).wf(),
        ensures
            final(eng).wf(),
            *final(self) == *old(self),
            final(eng).only_touches(
                *old(eng),
                Touched { actors: true, abilities: true, charge_pools: true, bugs: true, ..Touched::nothing() },
            ),
            !mutate ==> final(eng).unchanged(*old(eng)),
            !(*actor is System) || !old(eng).world.abilities@.contains_key(old(self).ability_id) ==> final(eng).unchanged(*old(eng)),
            r == old(self).answer(*old(eng), *final(eng), *actor, mutate),
            r is Err ==> final(ctx).commands@ == old(ctx).commands@,
            r is Ok ==> final(ctx).commands@ == old(ctx).commands@ + bug_deletions(
                old(eng).world.bugs@,
                old(self).ability_id,
                old(eng).world.bugs.next_key() as nat,
                old(eng).time,
            ),
            mutate && r is Ok ==> {
                let aid = old(self).ability_id;
                let bugs0 = old(eng).world.bugs@;
                let a0 = old(eng).world.abilities@[aid];
                &&& final(eng).world.charge_pools@ == unlink_all(old(eng).world.charge_pools@, link_dests(a0.links(), false))->0
                &&& final(eng).world.abilities@ == old(eng).world.abilities@.remove(aid)
                &&& final(eng).world.bugs@ == bugs0.restrict(bugs0.dom().filter(|k: ID| !logs_for(bugs0, aid, k)))
                &&& actors_cleared(
                    old(eng).world.actors@,
                    final(eng).world.actors@,
                    bugs0,
                    aid,
                    old(eng).world.bugs.next_key(),
                    a0.ownership_struct.owner,
                )
            },
            old(self).effect(*old(eng), *final(eng), old(ctx).commands@, final(ctx).commands@, *actor, mutate, r),
    {
        actor.require_system()?;
        let ability = get_ability(eng, self.ability_id)?;
        let owner: Option<ID> = ability.ownership_struct.owner;
        let pool_ids: Vec<ID> = ability.link_dests(false);
        let ghost e0 = *eng;
        let ghost bugs0 = e0.world.bugs@;
        let ghost aid = self.ability_id;

        remove_links_to(eng, ctx, actor, version, mutate, self.ability_id, &pool_ids)?;
        let ghost e1 = *eng;

        let nb: usize = eng.world.bugs.len_slots();
        let mut k: usize = 0;
        proof {
            assert(bug_deletions(bugs0, aid, 0, e0.time) =~= Seq::<CommandPacket>::empty());
            assert(ctx.commands@ =~= old(ctx).commands@ + Seq::<CommandPacket>::empty());
            if mutate {
                assert(eng.world.bugs@ =~= bugs0.restrict(bugs0.dom().filter(|b: ID| !((b as int) < 0 && logs_for(bugs0, aid, b)))));
            }
        }
        while k < nb
            invariant
                k <= nb,
                nb == e0.world.bugs.next_key(),
                eng.wf(),
                eng.only_touches(e1, Touched { actors: true, bugs: true, ..Touched::nothing() }),
                eng.world.bugs.next_key() == e0.world.bugs.next_key(),
                ctx.commands@ == old(ctx).commands@ + bug_deletions(bugs0, aid, k as nat, e0.time),
                !mutate ==> eng.unchanged(e1),
                mutate ==> eng.world.bugs@ == bugs0.restrict(bugs0.dom().filter(|b: ID| !((b as int) < k && logs_for(bugs0, aid, b)))),
                mutate ==> actors_cleared(e1.world.actors@, eng.world.actors@, bugs0, aid, k as int, None),
            decreases nb - k,
        {
            let key: ID = k as ID;
            let hit: bool = match eng.world.bugs.get(key) {
                Some(b) => match b.source {
                    BugSource::Ability(a) => a == self.ability_id,
                    BugSource::Custody => false,
                },
                None => false,
            };
            let ghost before = *eng;
            let ghost c0 = ctx.commands@;
            proof {
                assert(hit ==> eng.world.bugs@.contains_key(key));
                assert(mutate ==> (eng.world.bugs@.contains_key(key) <==> bugs0.contains_key(key)));
                assert(!mutate ==> eng.world.bugs@ == bugs0);
            }
            if hit {
                (DestroyBug { bug_id: key }).handle(eng, ctx, actor, version, mutate)?;
            }
            proof {
                assert(hit == logs_for(bugs0, aid, key));
                if mutate {
                    assert(eng.world.bugs@ =~= bugs0.restrict(bugs0.dom().filter(|b: ID| !((b as int) < k + 1 && logs_for(bugs0, aid, b)))));
                    let t = bugs0[key].target_id;
                    if hit {
                        lemma_without_contains(before.world.player(t).bugs@, key);
                    }
                    assert(eng.world.actors@.dom() == e1.world.actors@.dom());
                    assert forall|j: ID| #[trigger] eng.world.actors@.contains_key(j) implies actor_cleared(
                        e1.world.actors@[j],
                        eng.world.actors@[j],
                        j,
                        bugs0,
                        aid,
                        k as int + 1,
                        None,
                    ) by {
                        assert(actor_cleared(e1.world.actors@[j], before.world.actors@[j], j, bugs0, aid, k as int, None));
                        if hit && j == t {
                            let p0 = e1.world.actors@[j].actor_type->Player_0;
                            let p1 = eng.world.actors@[j].actor_type->Player_0;
                            assert forall|b: ID| #[trigger] p1.bugs@.contains(b) <==> p0.bugs@.contains(b)
                                && !((b as int) < k + 1 && logs_for(bugs0, aid, b) && bugs0[b].target_id == j) by {
                                if b == key {
                                } else {
                                }
                            }
                        } else {
                            assert(eng.world.actors@[j] == before.world.actors@[j]);
                        }
                    }
                }
            }
            k = k + 1;
        }

        if mutate {
            let ghost e2 = *eng;
            if let Some(owner_id) = owner {
                eng.world.actor_remove_ability(owner_id, self.ability_id);
                proof {
                    lemma_same_actor_types(e2.world.actors@, eng.world.actors@);
                }
            }
            eng.world.remove_ability(self.ability_id);
            proof {
                assert(eng.world.abilities@ =~= e0.world.abilities@.remove(aid));
                assert forall|b: ID| #[trigger] bugs0.contains_key(b) implies (b as int) < nb by {
                    e0.world.bugs.lemma_keys_below_next(b);
                }
                assert(eng.world.bugs@ =~= bugs0.restrict(bugs0.dom().filter(|b: ID| !logs_for(bugs0, aid, b))));
                assert forall|j: ID| #[trigger] eng.world.actors@.contains_key(j) implies actor_cleared(
                    e0.world.actors@[j],
                    eng.world.actors@[j],
                    j,
                    bugs0,
                    aid,
                    nb as int,
                    owner,
                ) by {
                    assert(actor_cleared(e1.world.actors@[j], e2.world.actors@[j], j, bugs0, aid, nb as int, None));
                }
            }
        }
        Ok(ActionResponse::DestroyAbility(DestroyAbilityResponse {}))
    }
}

} // verus!
