use vstd::prelude::*;

use crate::action::command::Command;
use crate::action::{ActionActor, ActionContext, ActionError, ActionResponse, ActionResult, CommandPacket};
use crate::actor::{ActorType, Modifier};
use crate::bug::BugSource;
use crate::common::{ActorKey, ID, Time, Version};
use crate::engine::{actor_is_player, Engine, World};
use crate::helpers::{actor_get_effective_passive, get_ability, get_actor, has_effective_passive};
use crate::passive::PassiveType;
use crate::smallbuf::{key_buffer_entries, key_buffer_get, key_buffer_len, key_buffer_new, key_buffer_push, KeyBuffer};

verus! {

#[derive(PartialEq, Eq, Structural, Clone, Debug)]
pub struct UpdateBugVisibilitiesResponse {}

/// Admin or system action: go through every bug, clear who sees its log, and work out
/// anew who does: the present owner of the bug's ability, or, for custody bugs, every
/// present player with a custody bug receiver passive in effect.
#[derive(PartialEq, Eq, Structural, Clone, Debug)]
pub struct UpdateBugVisibilities {}

/// A present player with a custody bug receiver passive in effect.
pub open spec fn is_custody_viewer(w: World, k: ID) -> bool {
    &&& actor_is_player(w.actors@, k)
    &&& !w.actors@[k].has_modifier_spec(Modifier::NoPresence)
    &&& has_effective_passive(w, k, PassiveType::CustodyBugReceiver)
}

/// The custody viewers among the actor keys below `n`, in key order.
pub open spec fn custody_viewers(w: World, n: nat) -> Seq<ID>
    decreases n,
{
    if n == 0 {
        Seq::<ID>::empty()
    } else {
        let rest = custody_viewers(w, (n - 1) as nat);
        if is_custody_viewer(w, (n - 1) as ID) {
            rest.push((n - 1) as ID)
        } else {
            rest
        }
    }
}

pub open spec fn packet(cmd: Command, recipient: Option<ID>, timestamp: Time) -> CommandPacket {
    CommandPacket { cmd, recipient, timestamp }
}

/// The command that shows bug `k`'s log to `v`.
pub open spec fn show_to(k: ID, v: ID, t: Time) -> CommandPacket {
    packet(Command::SetBugVisibility { bug_id: k, visible: true }, Some(v), t)
}

/// The commands for the bugs with keys below `n`, in key order, or the first refusal.
pub open spec fn bug_cmds(w: World, time: Time, viewers: Seq<ID>, n: nat) -> Result<Seq<CommandPacket>, ActionError>
    decreases n,
{
    if n == 0 {
        Ok(Seq::<CommandPacket>::empty())
    } else {
        match bug_cmds(w, time, viewers, (n - 1) as nat) {
            Err(x) => Err(x),
            Ok(cmds) => {
                let k = (n - 1) as ID;
                if !w.bugs@.contains_key(k) {
                    Ok(cmds)
                } else {
                    let c1 = cmds.push(packet(Command::ClearBugVisibily { bug_id: k }, None, time));
                    match w.bugs@[k].source {
                        BugSource::Ability(aid) => if !w.abilities@.contains_key(aid) {
                            Err(ActionError::AbilityNotFound)
                        } else {
                            match w.abilities@[aid].ownership_struct.owner {
                                Some(o) => if !w.actors@.contains_key(o) {
                                    Err(ActionError::ActorNotFound)
                                } else if !w.actors@[o].has_modifier_spec(Modifier::NoPresence) {
                                    Ok(c1.push(show_to(k, o, time)))
                                } else {
                                    Ok(c1)
                                },
                                None => Ok(c1),
                            }
                        },
                        BugSource::Custody => Ok(c1 + viewers.map_values(|v: ID| show_to(k, v, time))),
                    }
                }
            },
        }
    }
}

pub proof fn lemma_bug_cmds_err_extends(w: World, time: Time, viewers: Seq<ID>, k: nat, n: nat)
    requires
        k <= n,
        bug_cmds(w, time, viewers, k) is Err,
    ensures
        bug_cmds(w, time, viewers, n) == bug_cmds(w, time, viewers, k),
    decreases n - k,
{
    if k < n {
        lemma_bug_cmds_err_extends(w, time, viewers, k, (n - 1) as nat);
    }
}

/// The commands for all bugs of world `w` at time `time`, or the first refusal.
pub open spec fn all_bug_cmds(w: World, time: Time) -> Result<Seq<CommandPacket>, ActionError> {
    bug_cmds(w, time, custody_viewers(w, w.actors.next_key() as nat), w.bugs.next_key() as nat)
}

impl UpdateBugVisibilities {
    /// What the handler does besides answering: its effect on the engine (from `e0` to
    /// `e1`) and on the commands (from `c0` to `c1`), given its answer `r`.
    pub open spec fn effect(
        &self,
        e0: Engine,
        e1: Engine,
        c0: Seq<CommandPacket>,
        c1: Seq<CommandPacket>,
        actor: ActionActor,
        mutate: bool,
        r: ActionResult,
    ) -> bool {
        &&& (e1 == e0)
        &&& (!actor.is_admin_or_system() ==> r == Err::<ActionResponse, ActionError>(ActionError::RequiresAdminOrSystem)
            && c1 =~= c0)
        &&& (actor.is_admin_or_system() ==> {
            let cmds = all_bug_cmds(e0.world, e0.time);
            &&& r is Ok <==> cmds is Ok
            &&& r is Err ==> r == Err::<ActionResponse, ActionError>(cmds->Err_0)
            &&& r is Ok ==> r == Ok::<ActionResponse, ActionError>(ActionResponse::UpdateBugVisibilities(UpdateBugVisibilitiesResponse {}))
                && c1 =~= c0 + cmds->Ok_0
        })
    }

    /// The answer to a request from `actor`, from the engine before (`e0`) and after (`e1`)
    /// the handler runs.
    pub open spec fn answer(&self, e0: Engine, e1: Engine, actor: ActionActor, mutate: bool) -> ActionResult {
        if !actor.is_admin_or_system() {
            Err::<ActionResponse, ActionError>(ActionError::RequiresAdminOrSystem)
        } else {
            match all_bug_cmds(e0.world, e0.time) {
                Err(e) => Err(e),
                Ok(_) => Ok(ActionResponse::UpdateBugVisibilities(UpdateBugVisibilitiesResponse {})),
            }
        }
    }

    pub fn handle(
        &mut self,
        eng: &mut Engine,
        ctx: &mut ActionContext,
        actor: &ActionActor,
        version: Version,
        mutate: bool,
    ) -> (r: ActionResult)
        requires
            old(eng).wf(),
        ensures
            r == old(self).answer(*old(eng), *final(eng), *actor, mutate),
            *final(eng) == *old(eng),
            *final(self) == *old(self),
            !actor.is_admin_or_system() ==> r == Err::<ActionResponse, ActionError>(ActionError::RequiresAdminOrSystem)
                && final(ctx).commands@ == old(ctx).commands@,
            actor.is_admin_or_system() ==> {
                let cmds = all_bug_cmds(old(eng).world, old(eng).time);
                &&& r is Ok <==> cmds is Ok
                &&& r is Err ==> r == Err::<ActionResponse, ActionError>(cmds->Err_0)
                &&& r is Ok ==> r == Ok::<ActionResponse, ActionError>(ActionResponse::UpdateBugVisibilities(UpdateBugVisibilitiesResponse {}))
                    && final(ctx).commands@ == old(ctx).commands@ + cmds->Ok_0
            },
            old(self).effect(*old(eng), *final(eng), old(ctx).commands@, final(ctx).commands@, *actor, mutate, r),
    {
        actor.admin_or_system()?;
        let ghost e = *eng;

        let mut custody_viewers_buf: KeyBuffer = key_buffer_new();
        let n: usize = eng.world.actors.len_slots();
        let mut key: usize = 0;
        while key < n
            invariant
                n == e.world.actors.next_key(),
                key <= n,
                *eng == e,
                e.wf(),
                key_buffer_entries(custody_viewers_buf) == custody_viewers(e.world, key as nat),
            decreases n - key,
        {
            let k: ActorKey = key as ActorKey;
            let mut is_viewer: bool = false;
            match eng.world.actors.get(k) {
                Some(act) => {
                    match &act.actor_type {
                        ActorType::Player(_) => {
                            if !act.has_modifier(Modifier::NoPresence) {
                                if actor_get_effective_passive(eng, k, PassiveType::CustodyBugReceiver).is_some() {
                                    is_viewer = true;
                                }
                            }
                        },
                        ActorType::Organization(_) => {},
                    }
                },
                None => {},
            }
            assert(is_viewer == is_custody_viewer(e.world, k));
            if is_viewer {
                key_buffer_push(&mut custody_viewers_buf, k);
            }
            key = key + 1;
        }
        let ghost viewers = key_buffer_entries(custody_viewers_buf);
        assert(viewers == custody_viewers(e.world, e.world.actors.next_key() as nat));

        let m: usize = eng.world.bugs.len_slots();
        let mut b: usize = 0;
        let ghost start = ctx.commands@;
        while b < m
            invariant
                m == e.world.bugs.next_key(),
                b <= m,
                *eng == e,
                e.wf(),
                viewers == key_buffer_entries(custody_viewers_buf),
                viewers == custody_viewers(e.world, e.world.actors.next_key() as nat),
                actor.is_admin_or_system(),
                bug_cmds(e.world, e.time, viewers, b as nat) is Ok,
                ctx.commands@ == start + bug_cmds(e.world, e.time, viewers, b as nat)->Ok_0,
            decreases m - b,
        {
            let k: ID = b as ID;
            let ghost before = ctx.commands@;
            match eng.world.bugs.get(k) {
                Some(bug) => {
                    ctx.push_cmd(Command::ClearBugVisibily { bug_id: k }, None, eng.time);
                    match bug.source {
                        BugSource::Ability(ability_id) => {
                            let got = get_ability(eng, ability_id);
                            if got.is_err() {
                                proof { lemma_bug_cmds_err_extends(e.world, e.time, viewers, (b + 1) as nat, m as nat); }
                            }
                            let ability = got?;
                            if let Some(owner) = ability.ownership_struct.owner {
                                let got_owner = get_actor(eng, owner);
                                if got_owner.is_err() {
                                    proof { lemma_bug_cmds_err_extends(e.world, e.time, viewers, (b + 1) as nat, m as nat); }
                                }
                                let owner_data = got_owner?;
                                if !owner_data.has_modifier(Modifier::NoPresence) {
                                    ctx.push_cmd(
                                        Command::SetBugVisibility { bug_id: k, visible: true },
                                        Some(owner),
                                        eng.time,
                                    );
                                }
                            }
                        },
                        BugSource::Custody => {
                            let nv: usize = key_buffer_len(&custody_viewers_buf);
                            let mut i: usize = 0;
                            let ghost mid = ctx.commands@;
                            while i < nv
                                invariant
                                    nv == viewers.len(),
                                    i <= nv,
                                    viewers == key_buffer_entries(custody_viewers_buf),
                                    *eng == e,
                                    ctx.commands@ == mid + viewers.take(i as int).map_values(|v: ID| show_to(k, v, e.time)),
                                decreases nv - i,
                            {
                                let v: ActorKey = key_buffer_get(&custody_viewers_buf, i);
                                ctx.push_cmd(Command::SetBugVisibility { bug_id: k, visible: true }, Some(v), eng.time);
                                assert(viewers.take(i as int + 1).map_values(|v: ID| show_to(k, v, e.time))
                                    =~= viewers.take(i as int).map_values(|v: ID| show_to(k, v, e.time)).push(show_to(k, v, e.time)));
                                i = i + 1;
                            }
                            assert(viewers.take(nv as int) =~= viewers);
                        },
                    }
                },
                None => {},
            }
            assert(ctx.commands@ =~= start + bug_cmds(e.world, e.time, viewers, (b + 1) as nat)->Ok_0);
            b = b + 1;
        }

        Ok(ActionResponse::UpdateBugVisibilities(UpdateBugVisibilitiesResponse {}))
    }
}

} // verus!
