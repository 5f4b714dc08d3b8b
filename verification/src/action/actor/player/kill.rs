use vstd::prelude::*;

use crate::action::actor::add_state::{state_added, AddState};
use crate::action::comms::bug::update_bug_visibilities::all_bug_cmds;
use crate::action::comms::update_contact_channels::{
    contact_channels_hold, contact_perms, contacts_set, lemma_hold_preserved, lemma_refusal_stable, UpdateContactChannels,
};
use crate::action::{CommandPacket, ActionActor, ActionContext, ActionError, ActionResponse, ActionResult};
use crate::ability::Ability;
use crate::actor::{Actor, Modifier, State};
use crate::common::{ID, Version};
use crate::engine::{lemma_same_actor_types, same_actor_types, same_store, Engine, Touched, World};
use crate::helpers::get_player;
use crate::idset::{lemma_push_contains, lemma_without_contains};
use crate::ownership::OwnershipStruct;

verus! {

#[derive(PartialEq, Eq, Structural, Clone, Debug)]
pub struct KillResponse {}

/// Admin or system action: kill a player, that is, put it in the `Dead` state (with all
/// that `AddState` does).  A killer that is another player first takes the victim's
/// transferrable abilities, which keep their links and state.
#[derive(PartialEq, Eq, Clone, Debug)]
pub struct Kill {
    pub target_id: ID,
    pub killer_id: Option<ID>,
    pub silent: bool,
    pub death_message: Option<String>,
}

/// Why a kill of `target` is refused before the bugs are gone through, if it is.
pub open spec fn kill_refusal(target: ID, e: Engine, actor: ActionActor) -> Option<ActionError> {
    if !actor.is_admin_or_system() {
        Some(ActionError::RequiresAdminOrSystem)
    } else if !e.world.actors@.contains_key(target) {
        Some(ActionError::ActorNotFound)
    } else if !e.world.is_player(target) {
        Some(ActionError::NotAPlayer)
    } else {
        (AddState { actor_id: target, state: State::Dead }).refusal(e, actor)
    }
}

/// The outcome of a kill of `target`, from the engine before (`e0`) and after (`e1`).
pub open spec fn kill_result(target: ID, e0: Engine, e1: Engine, actor: ActionActor) -> Result<(), ActionError> {
    match kill_refusal(target, e0, actor) {
            Some(e) => Err(e),
            None => match all_bug_cmds(e1.world, e1.time) {
                Err(e) => Err(e),
                Ok(_) => Ok(()),
            },
    }
}

/// What a successful kill of `target` does to the engine: the target is dead, and its
/// contact channel permissions follow.
pub open spec fn kill_effect(target: ID, e0: Engine, e1: Engine) -> bool {
    &&& state_added(e0.world.actors@, e1.world.actors@, target, State::Dead, e0.config.modifiers_spec(State::Dead))
    &&& contacts_set(
        e0,
        e1,
        target,
        contact_perms(e1.world.actors@[target].has_modifier_spec(Modifier::NoContact)),
    )
}

/// Ability `a` of world `w` passes to the killer of `target`: it is one of the target's
/// abilities, owned by it, and transferrable.
pub open spec fn loot_moves(w: World, target: ID, a: ID) -> bool {
    &&& w.abilities@.contains_key(a)
    &&& w.actors@[target].abilities@.contains(a)
    &&& w.abilities@[a].ownership_struct.owner == Some(target)
    &&& w.abilities@[a].ownership_struct.transferrable
}

/// `e1` is `e0` with the transferrable abilities of `target` handed to `killer`: they change
/// owner, leave the target's list and join the killer's; no other actor or ability changes.
pub open spec fn looted_to(e0: Engine, e1: Engine, target: ID, killer: ID) -> bool {
    let a0 = e0.world.actors@;
    let a1 = e1.world.actors@;
    &&& e1.world.actors.next_key() == e0.world.actors.next_key()
    &&& e1.world.abilities.next_key() == e0.world.abilities.next_key()
    &&& e1.world.abilities@.dom() == e0.world.abilities@.dom()
    &&& forall|x: ID| #[trigger] e0.world.abilities@.contains_key(x) ==> e1.world.abilities@[x] == if loot_moves(e0.world, target, x) {
        Ability {
            ownership_struct: OwnershipStruct { owner: Some(killer), ..e0.world.abilities@[x].ownership_struct },
            ..e0.world.abilities@[x]
        }
    } else {
        e0.world.abilities@[x]
    }
    &&& same_actor_types(a0, a1)
    &&& forall|x: ID| x != target && x != killer && #[trigger] a0.contains_key(x) ==> a1[x] == a0[x]
    &&& a1[target] == (Actor { abilities: a1[target].abilities, ..a0[target] })
    &&& a1[killer] == (Actor { abilities: a1[killer].abilities, ..a0[killer] })
    &&& forall|x: ID| #[trigger] a1[target].abilities@.contains(x) <==> a0[target].abilities@.contains(x) && !loot_moves(e0.world, target, x)
    &&& forall|x: ID| #[trigger] a1[killer].abilities@.contains(x) <==> a0[killer].abilities@.contains(x) || loot_moves(e0.world, target, x)
}

/// Whether a kill of `target` by `killer` hands over abilities: the killer is another player.
pub open spec fn loots(e: Engine, target: ID, killer: Option<ID>) -> bool {
    killer matches Some(k) && k != target && e.world.is_player(k)
}

/// What a successful kill of `target` by `killer` does: where the killer is another player,
/// it first takes the target's transferrable abilities (the engine `mid`); then the target
/// dies.
pub open spec fn killed(target: ID, killer: Option<ID>, e0: Engine, e1: Engine) -> bool {
    if loots(e0, target, killer) {
        exists|mid: Engine| {
            &&& looted_to(e0, mid, target, killer->0)
            &&& #[trigger] kill_effect(target, mid, e1)
            &&& same_store(mid.world.abilities, e1.world.abilities)
        }
    } else {
        kill_effect(target, e0, e1) && same_store(e0.world.abilities, e1.world.abilities)
    }
}

/// Hands the transferrable abilities of `target` to `killer`.
fn loot(eng: &mut Engine, target: ID, killer: ID)
    requires
        old(eng).wf(),
        old(eng).world.is_player(target),
        old(eng).world.is_player(killer),
        target != killer,
    ensures
        final(eng).wf(),
        final(eng).only_touches(*old(eng), Touched { actors: true, abilities: true, ..Touched::nothing() }),
        looted_to(*old(eng), *final(eng), target, killer),
{
    let ghost e0 = *eng;
    let list: Vec<ID> = eng.world.actors.get(target).unwrap().abilities.clone();
    let ghost l0 = e0.world.actors@[target].abilities@;
    assert(list@ == l0);
    let ghost k0 = e0.world.actors@[killer].abilities@;
    let n: usize = list.len();
    let mut i: usize = 0;
    while i < n
        invariant
            n == l0.len(),
            i <= n,
            list@ == l0,
            l0 == e0.world.actors@[target].abilities@,
            k0 == e0.world.actors@[killer].abilities@,
            e0.wf(),
            e0.world.is_player(target),
            e0.world.is_player(killer),
            target != killer,
            eng.wf(),
            eng.only_touches(e0, Touched { actors: true, abilities: true, ..Touched::nothing() }),
            eng.world.actors.next_key() == e0.world.actors.next_key(),
            eng.world.abilities.next_key() == e0.world.abilities.next_key(),
            eng.world.abilities@.dom() == e0.world.abilities@.dom(),
            forall|x: ID| #[trigger] e0.world.abilities@.contains_key(x) ==> eng.world.abilities@[x] == if loot_moves(e0.world, target, x)
                && l0.take(i as int).contains(x) {
                Ability {
                    ownership_struct: OwnershipStruct { owner: Some(killer), ..e0.world.abilities@[x].ownership_struct },
                    ..e0.world.abilities@[x]
                }
            } else {
                e0.world.abilities@[x]
            },
            same_actor_types(e0.world.actors@, eng.world.actors@),
            forall|x: ID| x != target && x != killer && #[trigger] e0.world.actors@.contains_key(x)
                ==> eng.world.actors@[x] == e0.world.actors@[x],
            eng.world.actors@[target] == (Actor { abilities: eng.world.actors@[target].abilities, ..e0.world.actors@[target] }),
            eng.world.actors@[killer] == (Actor { abilities: eng.world.actors@[killer].abilities, ..e0.world.actors@[killer] }),
            forall|x: ID| #[trigger] eng.world.actors@[target].abilities@.contains(x)
                <==> l0.contains(x) && !(loot_moves(e0.world, target, x) && l0.take(i as int).contains(x)),
            forall|x: ID| #[trigger] eng.world.actors@[killer].abilities@.contains(x)
                <==> k0.contains(x) || (loot_moves(e0.world, target, x) && l0.take(i as int).contains(x)),
        decreases n - i,
    {
        let a: ID = list[i];
        let ghost before = *eng;
        proof {
            assert(l0.take(i as int + 1) =~= l0.take(i as int).push(a));
            lemma_push_contains(l0.take(i as int), a);
            assert(l0.contains(a)) by {
                assert(l0[i as int] == a);
            }
        }
        let moves: bool = match eng.world.abilities.get(a) {
            Some(ab) => ab.ownership_struct.owner == Some(target) && ab.ownership_struct.transferrable,
            None => false,
        };
        if moves {
            proof {
                if l0.take(i as int).contains(a) && loot_moves(e0.world, target, a) {
                    assert(false);
                }
                assert(loot_moves(e0.world, target, a));
            }
            let mut ab: Ability = eng.world.abilities.take(a).unwrap();
            ab.ownership_struct = OwnershipStruct { owner: Some(killer), ..ab.ownership_struct };
            eng.world.abilities.put(a, ab);
            let ghost e1 = *eng;
            eng.world.actor_remove_ability(target, a);
            let ghost e2 = *eng;
            eng.world.actor_add_ability(killer, a);
            proof {
                lemma_without_contains(e1.world.actors@[target].abilities@, a);
                lemma_same_actor_types(before.world.actors@, eng.world.actors@);
                assert forall|x: ID| #[trigger] e0.world.abilities@.contains_key(x) implies eng.world.abilities@[x] == if loot_moves(e0.world, target, x)
                    && l0.take(i as int + 1).contains(x) {
                    Ability {
                        ownership_struct: OwnershipStruct { owner: Some(killer), ..e0.world.abilities@[x].ownership_struct },
                        ..e0.world.abilities@[x]
                    }
                } else {
                    e0.world.abilities@[x]
                } by {
                    assert(l0.take(i as int + 1).contains(x) <==> l0.take(i as int).contains(x) || x == a);
                }
                assert forall|x: ID| #[trigger] eng.world.actors@[target].abilities@.contains(x)
                    <==> l0.contains(x) && !(loot_moves(e0.world, target, x) && l0.take(i as int + 1).contains(x)) by {
                    assert(l0.take(i as int + 1).contains(x) <==> l0.take(i as int).contains(x) || x == a);
                }
                assert forall|x: ID| #[trigger] eng.world.actors@[killer].abilities@.contains(x)
                    <==> k0.contains(x) || (loot_moves(e0.world, target, x) && l0.take(i as int + 1).contains(x)) by {
                    assert(l0.take(i as int + 1).contains(x) <==> l0.take(i as int).contains(x) || x == a);
                    let li = e2.world.actors@[killer].abilities@;
                    if !li.contains(a) {
                        assert(li.push(a)[li.len() as int] == a);
                    }
                    if li.contains(x) {
                        let j = choose|j: int| 0 <= j < li.len() && li[j] == x;
                        if !li.contains(a) {
                            assert(li.push(a)[j] == x);
                        }
                    }
                }
            }
        } else {
            proof {
                assert(!loot_moves(e0.world, target, a) || l0.take(i as int).contains(a));
                assert forall|x: ID| #[trigger] e0.world.abilities@.contains_key(x) implies eng.world.abilities@[x] == if loot_moves(e0.world, target, x)
                    && l0.take(i as int + 1).contains(x) {
                    Ability {
                        ownership_struct: OwnershipStruct { owner: Some(killer), ..e0.world.abilities@[x].ownership_struct },
                        ..e0.world.abilities@[x]
                    }
                } else {
                    e0.world.abilities@[x]
                } by {
                    assert(l0.take(i as int + 1).contains(x) <==> l0.take(i as int).contains(x) || x == a);
                }
                assert forall|x: ID| #[trigger] eng.world.actors@[target].abilities@.contains(x)
                    <==> l0.contains(x) && !(loot_moves(e0.world, target, x) && l0.take(i as int + 1).contains(x)) by {
                    assert(l0.take(i as int + 1).contains(x) <==> l0.take(i as int).contains(x) || x == a);
                }
                assert forall|x: ID| #[trigger] eng.world.actors@[killer].abilities@.contains(x)
                    <==> k0.contains(x) || (loot_moves(e0.world, target, x) && l0.take(i as int + 1).contains(x)) by {
                    assert(l0.take(i as int + 1).contains(x) <==> l0.take(i as int).contains(x) || x == a);
                }
            }
        }
        i = i + 1;
    }
    proof {
        assert(l0.take(n as int) =~= l0);
    }
}

impl Kill {
    /// A copy of the request.
    pub fn duplicate(&self) -> (k: Kill)
        ensures
            k == *self,
    {
        let death_message: Option<String> = match &self.death_message {
            Some(m) => Some(m.clone()),
            None => None,
        };
        Kill { target_id: self.target_id, killer_id: self.killer_id, silent: self.silent, death_message }
    }

    /// Why the action is refused before the bugs are gone through, if it is.
    pub open spec fn refusal(&self, e: Engine, actor: ActionActor) -> Option<ActionError> {
        kill_refusal(self.target_id, e, actor)
    }

    /// What the handler does besides answering: its effect on the engine (from `e0` to
    /// `e1`) and on the commands (from `c0` to `c1`), given its answer `r`.
    pub open spec fn effect(
        &self,
        e0: Engine,
        e1: Engine,
        c0: Seq<CommandPacket>,
        c1: Seq<CommandPacket>,
        actor: ActionActor,
        mutate: bool,
        r: ActionResult,
    ) -> bool {
        &&& (e1.wf())
        &&& (contact_channels_hold(e1, self.target_id))
        &&& (e1.only_touches(e0, Touched { actors: true, abilities: true, channels: true, ..Touched::nothing() }))
        &&& (!mutate ==> e1.unchanged(e0))
        &&& (r is Ok ==> c1 =~= c0 + all_bug_cmds(e1.world, e1.time)->Ok_0)
        &&& (mutate && r is Ok ==> killed(self.target_id, self.killer_id, e0, e1))
    }

    /// The answer to a request from `actor`, from the engine before (`e0`) and after (`e1`)
    /// the handler runs.
    pub open spec fn answer(&self, e0: Engine, e1: Engine, actor: ActionActor, mutate: bool) -> ActionResult {
        match kill_result(self.target_id, e0, e1, actor) {
            Err(e) => Err::<ActionResponse, ActionError>(e),
            Ok(_) => Ok(ActionResponse::Kill(KillResponse {})),
        }
    }

    pub fn handle(
        &mut self,
        eng: &mut Engine,
        ctx: &mut ActionContext,
        actor: &ActionActor,
        version: Version,
        mutate: bool,
    ) -> (r: ActionResult)
        requires
            old(eng).wf(),
            contact_channels_hold(*old(eng), old(self).target_id),
        ensures
            final(eng).wf(),
            *final(self) == *old(self),
            contact_channels_hold(*final(eng), old(self).target_id),
            final(eng).only_touches(*old(eng), Touched { actors: true, abilities: true, channels: true, ..Touched::nothing() }),
            !mutate ==> final(eng).unchanged(*old(eng)),
            r == old(self).answer(*old(eng), *final(eng), *actor, mutate),
            r is Ok ==> final(ctx).commands@ == old(ctx).commands@ + all_bug_cmds(final(eng).world, final(eng).time)->Ok_0,
            mutate && r is Ok ==> killed(old(self).target_id, old(self).killer_id, *old(eng), *final(eng)),
            old(self).effect(*old(eng), *final(eng), old(ctx).commands@, final(ctx).commands@, *actor, mutate, r),
    {
        actor.admin_or_system()?;
        let _ = get_player(eng, self.target_id)?;
        let ghost e0 = *eng;
        if mutate {
            if let Some(k) = self.killer_id {
                if k != self.target_id && get_player(eng, k).is_ok() {
                    // The death must be possible before anything is handed over.
                    let mut scratch = ActionContext::new();
                    (UpdateContactChannels { player_id: self.target_id }).handle(eng, &mut scratch, actor, version, false)?;
                    loot(eng, self.target_id, k);
                    proof {
                        assert(looted_to(e0, *eng, self.target_id, k));
                    }
                }
            }
        }
        let ghost mid = *eng;
        proof {
            lemma_same_actor_types(e0.world.actors@, mid.world.actors@);
            lemma_refusal_stable(e0, mid, self.target_id, *actor);
            lemma_hold_preserved(e0, mid, self.target_id);
        }
        let res = (AddState { actor_id: self.target_id, state: State::Dead }).handle(eng, ctx, actor, version, mutate);
        res?;
        proof {
            if mutate && loots(e0, self.target_id, self.killer_id) {
                assert(looted_to(e0, mid, self.target_id, self.killer_id->0) && kill_effect(self.target_id, mid, *eng)
                    && same_store(mid.world.abilities, eng.world.abilities));
            }
        }
        Ok(ActionResponse::Kill(KillResponse {}))
    }
}

} // verus!
