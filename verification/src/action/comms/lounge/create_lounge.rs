use vstd::prelude::*;

use indexmap::IndexSet;

use crate::action::command::Command;
use crate::action::comms::channel::create_channel::CreateChannel;
use crate::action::comms::channel::set_member::{member_set, SetMember};
use crate::action::comms::update_contact_channels::contact_perms;
use crate::action::{ActionActor, ActionContext, ActionError, ActionResponse, ActionResult, CommandPacket};
use crate::actor::{Actor, ActorType, Modifier, Player};
use crate::channel::{same_settings, ChannelMember, ChannelPermissions, SenderDisplay};
use crate::common::{ID, Version};
use crate::engine::{actor_is_player, id_inserted, lemma_player_replaced, player_replaced, same_store, Engine, Touched, World};
use crate::helpers::get_player;
use crate::indexset::{display_entries, displays_insert, displays_new};
use crate::lounge::{Lounge, LoungeVariant};

verus! {

#[derive(PartialEq, Eq, Structural, Clone, Debug)]
pub struct CreateLoungeResponse {
    pub lounge_id: ID,
    pub channel_id: ID,
}

/// System action: create a lounge over a new loggable channel.  Its participants join the
/// channel with the permissions their present contact state gives them (none while they
/// cannot be contacted, sending and viewing otherwise), and the lounge is added to their
/// lounges; the frontend learns of the lounge.  A dry run answers with ids 0.
#[derive(PartialEq, Eq, Structural, Clone, Debug)]
pub struct CreateLounge {
    pub variant: LoungeVariant,
}

/// The players of a lounge, in the order they join it.
pub open spec fn participants(v: LoungeVariant) -> Seq<ID> {
    match v {
        LoungeVariant::Fake { creator_id, .. } => seq![creator_id],
        LoungeVariant::Basic { contacted_id, contactor_id } => seq![contactor_id, contacted_id],
    }
}

/// `s` with `x` added at the end unless it is there.
pub open spec fn display_inserted(s: Seq<SenderDisplay>, x: SenderDisplay) -> Seq<SenderDisplay> {
    if s.contains(x) { s } else { s.push(x) }
}

/// The displays participant `p` may send as in a lounge.
pub open spec fn participant_displays(v: LoungeVariant, p: ID) -> Seq<SenderDisplay> {
    match v {
        LoungeVariant::Fake { contacted_id, contactor_id, .. } => display_inserted(
            seq![SenderDisplay::Raw(contacted_id)],
            SenderDisplay::Raw(contactor_id),
        ),
        LoungeVariant::Basic { .. } => seq![SenderDisplay::Raw(p)],
    }
}

/// Why `id` cannot take part, if it cannot.
pub open spec fn player_refusal(e: Engine, id: ID) -> Option<ActionError> {
    if !e.world.actors@.contains_key(id) {
        Some(ActionError::ActorNotFound)
    } else if !e.world.is_player(id) {
        Some(ActionError::NotAPlayer)
    } else {
        None
    }
}

/// The permissions participant `p` gets in a new lounge: those of its contact state, none
/// while it cannot be contacted, sending and viewing otherwise.
pub open spec fn participant_perms(e: Engine, p: ID) -> ChannelPermissions {
    contact_perms(e.world.actors@[p].has_modifier_spec(Modifier::NoContact))
}

/// Packet `pk` tells participant `p` of its settings in the lounge's channel `c`.
pub open spec fn joined_packet(pk: CommandPacket, v: LoungeVariant, p: ID, c: ID, e: Engine) -> bool {
    &&& pk.cmd matches Command::UpdateChannelView { channel_id, displays, perms }
        && channel_id == c && perms == participant_perms(e, p)
        && display_entries(displays) == participant_displays(v, p)
    &&& pk.recipient == Some(p)
    &&& pk.timestamp == e.time
}

/// The actors after lounge `lid` is added to the lounges of the players `ps`.
pub open spec fn lounge_joined(old: Map<ID, Actor>, new: Map<ID, Actor>, ps: Seq<ID>, lid: ID) -> bool {
    &&& new.dom() == old.dom()
    &&& forall|k: ID| #[trigger] new.contains_key(k) ==> if ps.contains(k) {
        &&& new[k].actor_type is Player
        &&& new[k] == (Actor { actor_type: new[k].actor_type, ..old[k] })
        &&& new[k].actor_type->Player_0 == (Player { lounges: new[k].actor_type->Player_0.lounges, ..old[k].actor_type->Player_0 })
        &&& new[k].actor_type->Player_0.lounges@ == id_inserted(old[k].actor_type->Player_0.lounges@, lid)
    } else {
        new[k] == old[k]
    }
}

/// Player `p` joins channel `c` with the permissions `perms` and the displays `ds`, and
/// lounge `lid` is added to its lounges.
fn join(
    eng: &mut Engine,
    ctx: &mut ActionContext,
    c: ID,
    lid: ID,
    p: ID,
    ds: IndexSet<SenderDisplay>,
    perms: ChannelPermissions,
    version: Version,
) -> (r: Result<(), ActionError>)
    requires
        old(eng).wf(),
        old(eng).world.is_player(p),
        old(eng).world.channels@.contains_key(c),
    ensures
        r is Ok,
        final(eng).wf(),
        final(eng).only_touches(*old(eng), Touched { actors: true, channels: true, ..Touched::nothing() }),
        final(eng).world.channels@ == old(eng).world.channels@.insert(c, final(eng).world.channels@[c]),
        final(eng).world.channels@[c].loggable == old(eng).world.channels@[c].loggable,
        final(eng).world.channels@[c].member(p) matches Some(m) && m.perms == perms
            && m.display_list() == display_entries(ds),
        forall|q: ID| q != p ==> #[trigger] final(eng).world.channels@[c].member(q) == old(eng).world.channels@[c].member(q),
        player_replaced(
            old(eng).world.actors@,
            final(eng).world.actors@,
            p,
            Player { lounges: final(eng).world.player(p).lounges, ..old(eng).world.player(p) },
        ),
        final(eng).world.player(p).lounges@ == id_inserted(old(eng).world.player(p).lounges@, lid),
        final(ctx).commands@.len() == old(ctx).commands@.len() + 1,
        final(ctx).commands@.drop_last() == old(ctx).commands@,
        final(ctx).commands@.last().recipient == Some(p),
        final(ctx).commands@.last().timestamp == old(eng).time,
        final(ctx).commands@.last().cmd matches Command::UpdateChannelView { channel_id, displays, perms: sent }
            && channel_id == c && sent == perms
            && display_entries(displays) == display_entries(ds),
{
    let member = ChannelMember { perms, displays: ds };
    let mut set = SetMember { player_id: p, channel_id: c, settings: Some(member) };
    set.handle(eng, ctx, &ActionActor::System, version, true)?;
    let ghost e1 = *eng;
    eng.world.set_player_lounge(p, lid, true);
    proof {
        lemma_player_replaced(e1.world.actors@, eng.world.actors@, p, eng.world.player(p));
    }
    Ok(())
}

/// The permissions that the contact state of participant `p` gives it.
fn perms_for(eng: &Engine, p: ID) -> (r: ChannelPermissions)
    requires
        eng.world.actors@.contains_key(p),
    ensures
        r == participant_perms(*eng, p),
{
    let a: &Actor = eng.world.actors.get(p).unwrap();
    if a.has_modifier(Modifier::NoContact) {
        ChannelPermissions::empty()
    } else {
        ChannelPermissions::send_and_view()
    }
}

impl CreateLounge {
    /// Why the lounge is not created, if it is not.
    pub open spec fn refusal(&self, e: Engine, actor: ActionActor) -> Option<ActionError> {
        let ps = participants(self.variant);
        if !(actor is System) {
            Some(ActionError::RequiresSystem)
        } else if player_refusal(e, ps[0]) is Some {
            player_refusal(e, ps[0])
        } else if ps.len() > 1 {
            player_refusal(e, ps[1])
        } else {
            None
        }
    }

    /// What the handler does besides answering: its effect on the engine (from `e0` to
    /// `e1`) and on the commands (from `c0` to `c1`), given its answer `r`.
    pub open spec fn effect(
        &self,
        e0: Engine,
        e1: Engine,
        c0: Seq<CommandPacket>,
        c1: Seq<CommandPacket>,
        actor: ActionActor,
        mutate: bool,
        r: ActionResult,
    ) -> bool {
        &&& (e1.wf())
        &&& (e1.only_touches(e0, Touched { actors: true, channels: true, lounges: true, ..Touched::nothing() }))
        &&& (!mutate || r is Err ==> e1.unchanged(e0) && c1 =~= c0)
        &&& (mutate && r is Ok ==> {
            let v = self.variant;
            let ps = participants(v);
            let c = e0.world.channels.next_key() as ID;
            let lid = e0.world.lounges.next_key() as ID;
            let ch = e1.world.channels@[c];
            let n = c0.len();
            &&& c == e0.world.channels.next_key() && lid == e0.world.lounges.next_key()
            &&& e1.world.channels@ =~= e0.world.channels@.insert(c, ch)
            &&& ch.loggable
            &&& forall|q: ID| #[trigger] ch.member(q) == if ps.contains(q) { ch.member(q) } else { None }
            &&& forall|q: ID| ps.contains(q) ==> (#[trigger] ch.member(q) matches Some(m)
                && m.perms == participant_perms(e0, q)
                && m.display_list() == participant_displays(v, q))
            &&& e1.world.lounges@ =~= e0.world.lounges@.insert(lid, Lounge { channel_id: c, variant: v })
            &&& lounge_joined(e0.world.actors@, e1.world.actors@, ps, lid)
            &&& c1.len() == n + ps.len() + 1
            &&& c1.take(n as int) == c0
            &&& forall|i: int| 0 <= i < ps.len() ==> joined_packet(#[trigger] c1[n + i], v, ps[i], c, e0)
            &&& c1.last() == (CommandPacket {
                cmd: Command::MapLounge { lounge_id: lid, channel_id: c },
                recipient: None,
                timestamp: e0.time,
            })
        })
    }

    /// The answer to a request from `actor`, from the engine before (`e0`) and after (`e1`)
    /// the handler runs.
    pub open spec fn answer(&self, e0: Engine, e1: Engine, actor: ActionActor, mutate: bool) -> ActionResult {
        match self.refusal(e0, actor) {
            Some(e) => Err::<ActionResponse, ActionError>(e),
            None => Ok(ActionResponse::CreateLounge(CreateLoungeResponse {
                lounge_id: if mutate { e0.world.lounges.next_key() as ID } else { 0 },
                channel_id: if mutate { e0.world.channels.next_key() as ID } else { 0 },
            })),
        }
    }

    #[verifier::rlimit(30)]
    pub fn handle(
        &mut self,
        eng: &mut Engine,
        ctx: &mut ActionContext,
        actor: &ActionActor,
        version: Version,
        mutate: bool,
    ) -> (r: ActionResult)
        requires
            old(eng).wf(),
        ensures
            final(eng).wf(),
            *final(self) == *old(self),
            final(eng).only_touches(*old(eng), Touched { actors: true, channels: true, lounges: true, ..Touched::nothing() }),
            !mutate || r is Err ==> final(eng).unchanged(*old(eng)) && final(ctx).commands@ == old(ctx).commands@,
            r == old(self).answer(*old(eng), *final(eng), *actor, mutate),
            mutate && r is Ok ==> {
                let v = old(self).variant;
                let ps = participants(v);
                let c = old(eng).world.channels.next_key() as ID;
                let lid = old(eng).world.lounges.next_key() as ID;
                let ch = final(eng).world.channels@[c];
                let n = old(ctx).commands@.len();
                &&& c == old(eng).world.channels.next_key() && lid == old(eng).world.lounges.next_key()
                &&& final(eng).world.channels@ == old(eng).world.channels@.insert(c, ch)
                &&& ch.loggable
                &&& forall|q: ID| #[trigger] ch.member(q) == if ps.contains(q) { ch.member(q) } else { None }
                &&& forall|q: ID| ps.contains(q) ==> (#[trigger] ch.member(q) matches Some(m)
                    && m.perms == participant_perms(*old(eng), q)
                    && m.display_list() == participant_displays(v, q))
                &&& final(eng).world.lounges@ == old(eng).world.lounges@.insert(lid, Lounge { channel_id: c, variant: v })
                &&& lounge_joined(old(eng).world.actors@, final(eng).world.actors@, ps, lid)
                &&& final(ctx).commands@.len() == n + ps.len() + 1
                &&& final(ctx).commands@.take(n as int) == old(ctx).commands@
                &&& forall|i: int| 0 <= i < ps.len() ==> joined_packet(#[trigger] final(ctx).commands@[n + i], v, ps[i], c, *old(eng))
                &&& final(ctx).commands@.last() == (CommandPacket {
                    cmd: Command::MapLounge { lounge_id: lid, channel_id: c },
                    recipient: None,
                    timestamp: old(eng).time,
                })
            },
            old(self).effect(*old(eng), *final(eng), old(ctx).commands@, final(ctx).commands@, *actor, mutate, r),
    {
        actor.require_system()?;
        let (first, second): (ID, Option<ID>) = match self.variant {
            LoungeVariant::Fake { creator_id, .. } => (creator_id, None),
            LoungeVariant::Basic { contacted_id, contactor_id } => (contactor_id, Some(contacted_id)),
        };
        let _ = get_player(eng, first)?;
        match second {
            Some(p) => {
                let _ = get_player(eng, p)?;
            },
            None => {},
        }
        let perms1: ChannelPermissions = perms_for(eng, first);
        let perms2: ChannelPermissions = match second {
            Some(p) => perms_for(eng, p),
            None => ChannelPermissions::empty(),
        };

        let mut create = CreateChannel { loggable: true };
        let created = create.handle(eng, ctx, actor, version, mutate);
        let channel_id: ID = match created {
            Ok(ActionResponse::CreateChannel(data)) => data.id,
            _ => 0,
        };
        if !mutate {
            return Ok(ActionResponse::CreateLounge(CreateLoungeResponse { lounge_id: 0, channel_id: 0 }));
        }
        let ghost e0 = *old(eng);
        let ghost e1 = *eng;
        let ghost n = ctx.commands@.len();
        let lounge_id: ID = eng.world.lounges.len_slots() as ID;

        let mut ds1: IndexSet<SenderDisplay> = displays_new();
        match self.variant {
            LoungeVariant::Fake { contacted_id, contactor_id, .. } => {
                displays_insert(&mut ds1, SenderDisplay::Raw(contacted_id));
                displays_insert(&mut ds1, SenderDisplay::Raw(contactor_id));
            },
            LoungeVariant::Basic { .. } => {
                displays_insert(&mut ds1, SenderDisplay::Raw(first));
            },
        }
        proof {
            assert(display_entries(ds1) =~= participant_displays(self.variant, first));
        }
        let _ = join(eng, ctx, channel_id, lounge_id, first, ds1, perms1, version);
        let ghost e2 = *eng;
        match second {
            Some(p) => {
                let mut ds2: IndexSet<SenderDisplay> = displays_new();
                displays_insert(&mut ds2, SenderDisplay::Raw(p));
                proof {
                    assert(display_entries(ds2) =~= participant_displays(self.variant, p));
                    lemma_player_replaced(e1.world.actors@, e2.world.actors@, first, e2.world.player(first));
                }
                let _ = join(eng, ctx, channel_id, lounge_id, p, ds2, perms2, version);
            },
            None => {},
        }

        let lid: ID = eng.world.lounges.add(Lounge { channel_id, variant: self.variant });
        ctx.push_cmd(Command::MapLounge { lounge_id: lid, channel_id }, None, eng.time);
        proof {
            let ps = participants(self.variant);
            let ch = eng.world.channels@[channel_id];
            assert(eng.world.channels@ =~= e0.world.channels@.insert(channel_id, ch));
            assert(ctx.commands@.take(n as int) =~= old(ctx).commands@);
            assert forall|q: ID| #[trigger] ch.member(q) == if ps.contains(q) { ch.member(q) } else { None } by {
                if !ps.contains(q) {
                    assert(q != first);
                    assert(second matches Some(p) ==> q != p);
                }
            }
            let a0 = e0.world.actors@;
            let a2 = e2.world.actors@;
            let a3 = eng.world.actors@;
            assert(a0 == e1.world.actors@);
            let l1 = id_inserted(a0[first].actor_type->Player_0.lounges@, lid);
            if !a0[first].actor_type->Player_0.lounges@.contains(lid) {
                assert(l1[l1.len() - 1] == lid);
            }
            assert(l1.contains(lid));
            assert(id_inserted(l1, lid) == l1);
            assert(a3.dom() =~= a0.dom());
            assert forall|k: ID| #[trigger] a3.contains_key(k) implies (if ps.contains(k) {
                &&& a3[k].actor_type is Player
                &&& a3[k] == (Actor { actor_type: a3[k].actor_type, ..a0[k] })
                &&& a3[k].actor_type->Player_0 == (Player { lounges: a3[k].actor_type->Player_0.lounges, ..a0[k].actor_type->Player_0 })
                &&& a3[k].actor_type->Player_0.lounges@ == id_inserted(a0[k].actor_type->Player_0.lounges@, lid)
            } else {
                a3[k] == a0[k]
            }) by {
                match second {
                    None => {
                        assert(ps =~= seq![first]);
                        if k == first {
                            assert(ps.contains(k));
                        } else {
                            assert(!ps.contains(k));
                        }
                    },
                    Some(p) => {
                        assert(ps =~= seq![first, p]);
                        if k == first || k == p {
                            assert(ps[0] == first && ps[1] == p);
                            assert(ps.contains(k));
                        } else {
                            assert(!ps.contains(k));
                        }
                    },
                }
            }
        }
        Ok(ActionResponse::CreateLounge(CreateLoungeResponse { lounge_id: lid, channel_id }))
    }
}

} // verus!
