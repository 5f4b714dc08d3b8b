use vstd::prelude::*;

use crate::action::{CommandPacket, ActionActor, ActionContext, ActionError, ActionResponse, ActionResult};
use crate::actor::Modifier;
use crate::channel::{Channel, ChannelMember, ChannelPermissions};
use crate::common::{ActorKey, ID, Version};
use crate::engine::{lemma_same_actor_types, same_actor_types, same_store, Engine, Touched};
use crate::helpers::{get_actor, get_channel, get_gc, get_lounge, get_player};

verus! {

#[derive(PartialEq, Eq, Structural, Clone, Debug)]
pub struct UpdateContactChannelsResponse {}

/// System action: set a player's permissions in the channels of its lounges and group
/// chats from its current state: none while it cannot contact others, send and view
/// otherwise.
#[derive(PartialEq, Eq, Structural, Clone, Debug)]
pub struct UpdateContactChannels {
    pub player_id: ActorKey,
}

/// The channel of the lounge (or, with `lounge` false, of the group chat) `id`, if both exist.
pub open spec fn contact_channel(e: Engine, id: ID, lounge: bool) -> Option<ID> {
    if lounge {
        if e.world.lounges@.contains_key(id) && e.world.channels@.contains_key(e.world.lounges@[id].channel_id) {
            Some(e.world.lounges@[id].channel_id)
        } else {
            None
        }
    } else {
        if e.world.groupchats@.contains_key(id) && e.world.channels@.contains_key(e.world.groupchats@[id].channel_id) {
            Some(e.world.groupchats@[id].channel_id)
        } else {
            None
        }
    }
}

/// The first refusal met going through the lounges (or group chats) `ids` in order.
pub open spec fn first_contact_error(e: Engine, ids: Seq<ID>, lounge: bool) -> Option<ActionError>
    decreases ids.len(),
{
    if ids.len() == 0 {
        None
    } else {
        match first_contact_error(e, ids.drop_last(), lounge) {
            Some(err) => Some(err),
            None => {
                let id = ids.last();
                if lounge && !e.world.lounges@.contains_key(id) {
                    Some(ActionError::LoungeNotFound)
                } else if !lounge && !e.world.groupchats@.contains_key(id) {
                    Some(ActionError::GroupchatNotFound)
                } else if contact_channel(e, id, lounge) is None {
                    Some(ActionError::ChannelNotFound)
                } else {
                    None
                }
            },
        }
    }
}

/// The permissions a player gets in its contact channels.
pub open spec fn contact_perms(no_contact: bool) -> ChannelPermissions {
    if no_contact {
        ChannelPermissions { send: false, view: false }
    } else {
        ChannelPermissions { send: true, view: true }
    }
}

/// Whether channel `c` is the channel of one of the lounges (or group chats) `ids`.
pub open spec fn is_contact_channel_of(e: Engine, ids: Seq<ID>, lounge: bool, c: ID) -> bool {
    exists|i: int| 0 <= i < ids.len() && contact_channel(e, #[trigger] ids[i], lounge) == Some(c)
}

/// The player is a member of the channel of each of its lounges and group chats (an update is
/// not defined otherwise).
pub open spec fn contact_channels_hold(e: Engine, p: ID) -> bool {
    e.world.is_player(p) ==> {
        &&& forall|c: ID| #[trigger] is_contact_channel_of(e, e.world.player(p).lounges@, true, c)
            ==> e.world.channels@[c].member(p) is Some
        &&& forall|c: ID| #[trigger] is_contact_channel_of(e, e.world.player(p).groupchats@, false, c)
            ==> e.world.channels@[c].member(p) is Some
    }
}

/// Channel `c1` is channel `c0` with the membership of `p` given permissions `perms`.
pub open spec fn perms_set(c0: Channel, c1: Channel, p: ID, perms: ChannelPermissions) -> bool {
    &&& c1.loggable == c0.loggable
    &&& c0.member(p) is Some
    &&& c1.member(p) is Some
    &&& c1.member(p)->0.perms == perms
    &&& c1.member(p)->0.display_list() == c0.member(p)->0.display_list()
    &&& forall|q: ID| q != p ==> #[trigger] c1.member(q) == c0.member(q)
}

pub proof fn lemma_contact_channel_stable(e0: Engine, e1: Engine)
    requires
        same_store(e0.world.lounges, e1.world.lounges),
        same_store(e0.world.groupchats, e1.world.groupchats),
        e0.world.channels@.dom() == e1.world.channels@.dom(),
    ensures
        forall|id: ID, l: bool| #[trigger] contact_channel(e1, id, l) == contact_channel(e0, id, l),
        forall|ids: Seq<ID>, l: bool, c: ID| #[trigger] is_contact_channel_of(e1, ids, l, c) == is_contact_channel_of(e0, ids, l, c),
{
    assert forall|ids: Seq<ID>, l: bool, c: ID| #[trigger] is_contact_channel_of(e1, ids, l, c) == is_contact_channel_of(e0, ids, l, c) by {
        if is_contact_channel_of(e1, ids, l, c) {
            let i = choose|i: int| 0 <= i < ids.len() && contact_channel(e1, #[trigger] ids[i], l) == Some(c);
            assert(contact_channel(e0, ids[i], l) == Some(c));
        }
        if is_contact_channel_of(e0, ids, l, c) {
            let i = choose|i: int| 0 <= i < ids.len() && contact_channel(e0, #[trigger] ids[i], l) == Some(c);
            assert(contact_channel(e1, ids[i], l) == Some(c));
        }
    }
}

/// Gives player `p` permissions `perms` in the channel of each lounge (or group chat) of
/// `ids`, in order; stops at the first lounge, group chat or channel that does not exist.
#[verifier::loop_isolation(false)]
fn set_contact_perms(eng: &mut Engine, p: ID, ids: &Vec<ID>, lounge: bool, perms: ChannelPermissions, mutate: bool) -> (r: Result<(), ActionError>)
    requires
        old(eng).wf(),
        forall|c: ID| #[trigger] is_contact_channel_of(*old(eng), ids@, lounge, c)
            ==> old(eng).world.channels@[c].member(p) is Some,
    ensures
        final(eng).wf(),
        final(eng).only_touches(*old(eng), Touched { channels: true, ..Touched::nothing() }),
        final(eng).world.channels@.dom() == old(eng).world.channels@.dom(),
        !mutate ==> final(eng).unchanged(*old(eng)),
        r == match first_contact_error(*old(eng), ids@, lounge) {
            Some(e) => Err::<(), ActionError>(e),
            None => Ok(()),
        },
        forall|c: ID| #[trigger] old(eng).world.channels@.contains_key(c) ==> {
            if is_contact_channel_of(*old(eng), ids@, lounge, c) {
                &&& (mutate && r is Ok ==> perms_set(old(eng).world.channels@[c], final(eng).world.channels@[c], p, perms))
                &&& (final(eng).world.channels@[c] == old(eng).world.channels@[c]
                    || perms_set(old(eng).world.channels@[c], final(eng).world.channels@[c], p, perms))
            } else {
                final(eng).world.channels@[c] == old(eng).world.channels@[c]
            }
        },
{
    let ghost e0 = *eng;
    let n: usize = ids.len();
    let mut i: usize = 0;
    while i < n
        invariant
            n == ids@.len(),
            i <= n,
            eng.wf(),
            eng.only_touches(e0, Touched { channels: true, ..Touched::nothing() }),
            eng.world.channels@.dom() == e0.world.channels@.dom(),
            !mutate ==> eng.unchanged(e0),
            first_contact_error(e0, ids@.take(i as int), lounge) is None,
            forall|c: ID| #[trigger] e0.world.channels@.contains_key(c) ==> {
                if mutate && is_contact_channel_of(e0, ids@.take(i as int), lounge, c) {
                    perms_set(e0.world.channels@[c], eng.world.channels@[c], p, perms)
                } else {
                    eng.world.channels@[c] == e0.world.channels@[c]
                }
            },
            forall|c: ID| #[trigger] is_contact_channel_of(e0, ids@.take(i as int), lounge, c) ==> is_contact_channel_of(e0, ids@, lounge, c),
        decreases n - i,
    {
        let id: ID = ids[i];
        proof {
            assert(ids@.take(i as int + 1).drop_last() =~= ids@.take(i as int));
            assert(ids@.take(i as int + 1).last() == id);
            lemma_contact_channel_stable(e0, *eng);
        }
        let ch: ID = if lounge {
            let l = get_lounge(eng, id);
            if l.is_err() {
                proof { lemma_first_contact_error_extends(e0, ids@, lounge, i as int + 1); }
            }
            l?.channel_id
        } else {
            let g = get_gc(eng, id);
            if g.is_err() {
                proof { lemma_first_contact_error_extends(e0, ids@, lounge, i as int + 1); }
            }
            g?.channel_id
        };
        let got = get_channel(eng, ch);
        if got.is_err() {
            proof { lemma_first_contact_error_extends(e0, ids@, lounge, i as int + 1); }
        }
        let channel = got?;
        proof {
            assert(contact_channel(e0, ids@[i as int], lounge) == Some(ch));
            assert(is_contact_channel_of(e0, ids@, lounge, ch));
        }
        let member: &ChannelMember = channel.get_member(p).unwrap();
        if mutate {
            let updated: ChannelMember = member.with_perms(perms);
            let mut c: Channel = eng.world.channels.take(ch).unwrap();
            c.set_member(p, Some(updated));
            eng.world.channels.put(ch, c);
        }
        proof {
            assert forall|c: ID| #[trigger] e0.world.channels@.contains_key(c) implies {
                if mutate && is_contact_channel_of(e0, ids@.take(i as int + 1), lounge, c) {
                    perms_set(e0.world.channels@[c], eng.world.channels@[c], p, perms)
                } else {
                    eng.world.channels@[c] == e0.world.channels@[c]
                }
            } by {
                if is_contact_channel_of(e0, ids@.take(i as int + 1), lounge, c) && c != ch {
                    let j = choose|j: int| 0 <= j < i + 1 && contact_channel(e0, #[trigger] ids@.take(i as int + 1)[j], lounge) == Some(c);
                    assert(ids@.take(i as int + 1)[j] == ids@.take(i as int)[j]);
                }
                if is_contact_channel_of(e0, ids@.take(i as int), lounge, c) {
                    let j = choose|j: int| 0 <= j < i && contact_channel(e0, #[trigger] ids@.take(i as int)[j], lounge) == Some(c);
                    assert(ids@.take(i as int + 1)[j] == ids@.take(i as int)[j]);
                }
                if c == ch {
                    assert(ids@.take(i as int + 1)[i as int] == id);
                }
            }
            assert forall|c: ID| #[trigger] is_contact_channel_of(e0, ids@.take(i as int + 1), lounge, c) implies is_contact_channel_of(e0, ids@, lounge, c) by {
                let j = choose|j: int| 0 <= j < i + 1 && contact_channel(e0, #[trigger] ids@.take(i as int + 1)[j], lounge) == Some(c);
                assert(ids@.take(i as int + 1)[j] == ids@[j]);
            }
        }
        i = i + 1;
    }
    proof {
        assert(ids@.take(n as int) =~= ids@);
    }
    Ok(())
}

pub proof fn lemma_first_contact_error_stable(e0: Engine, e1: Engine, ids: Seq<ID>, lounge: bool)
    requires
        same_store(e0.world.lounges, e1.world.lounges),
        same_store(e0.world.groupchats, e1.world.groupchats),
        e0.world.channels@.dom() == e1.world.channels@.dom(),
    ensures
        first_contact_error(e1, ids, lounge) == first_contact_error(e0, ids, lounge),
    decreases ids.len(),
{
    lemma_contact_channel_stable(e0, e1);
    if ids.len() > 0 {
        lemma_first_contact_error_stable(e0, e1, ids.drop_last(), lounge);
    }
}

pub proof fn lemma_refusal_stable(e0: Engine, e1: Engine, p: ID, actor: ActionActor)
    requires
        same_store(e0.world.lounges, e1.world.lounges),
        same_store(e0.world.groupchats, e1.world.groupchats),
        same_actor_types(e0.world.actors@, e1.world.actors@),
        e0.world.channels@.dom() == e1.world.channels@.dom(),
    ensures
        (UpdateContactChannels { player_id: p }).refusal(e1, actor) == (UpdateContactChannels { player_id: p }).refusal(e0, actor),
{
    lemma_same_actor_types(e0.world.actors@, e1.world.actors@);
    if e1.world.is_player(p) {
        assert(e1.world.actors@[p].actor_type == e0.world.actors@[p].actor_type);
        lemma_first_contact_error_stable(e0, e1, e0.world.player(p).lounges@, true);
        lemma_first_contact_error_stable(e0, e1, e0.world.player(p).groupchats@, false);
    }
}

pub proof fn lemma_hold_preserved(e0: Engine, e1: Engine, p: ID)
    requires
        contact_channels_hold(e0, p),
        same_store(e0.world.lounges, e1.world.lounges),
        same_store(e0.world.groupchats, e1.world.groupchats),
        same_actor_types(e0.world.actors@, e1.world.actors@),
        e0.world.channels@.dom() == e1.world.channels@.dom(),
        forall|c: ID| #[trigger] e0.world.channels@.contains_key(c) && e0.world.channels@[c].member(p) is Some
            ==> e1.world.channels@[c].member(p) is Some,
    ensures
        contact_channels_hold(e1, p),
{
    lemma_contact_channel_stable(e0, e1);
    if e1.world.is_player(p) {
        assert forall|c: ID| #[trigger] is_contact_channel_of(e1, e1.world.player(p).lounges@, true, c)
            implies e1.world.channels@[c].member(p) is Some by {
            assert(is_contact_channel_of(e0, e0.world.player(p).lounges@, true, c));
            let i = choose|i: int| 0 <= i < e0.world.player(p).lounges@.len() && contact_channel(e0, #[trigger] e0.world.player(p).lounges@[i], true) == Some(c);
        }
        assert forall|c: ID| #[trigger] is_contact_channel_of(e1, e1.world.player(p).groupchats@, false, c)
            implies e1.world.channels@[c].member(p) is Some by {
            assert(is_contact_channel_of(e0, e0.world.player(p).groupchats@, false, c));
            let i = choose|i: int| 0 <= i < e0.world.player(p).groupchats@.len() && contact_channel(e0, #[trigger] e0.world.player(p).groupchats@[i], false) == Some(c);
        }
    }
}

/// Once a prefix of `ids` meets a refusal, so does the whole list.
pub proof fn lemma_first_contact_error_extends(e: Engine, ids: Seq<ID>, lounge: bool, k: int)
    requires
        0 <= k <= ids.len(),
        first_contact_error(e, ids.take(k), lounge) is Some,
    ensures
        first_contact_error(e, ids, lounge) == first_contact_error(e, ids.take(k), lounge),
    decreases ids.len() - k,
{
    if k < ids.len() {
        assert(ids.take(k + 1).drop_last() =~= ids.take(k));
        lemma_first_contact_error_extends(e, ids, lounge, k + 1);
    } else {
        assert(ids.take(k) =~= ids);
    }
}

/// `e1` is `e0` with player `p` given, in the channel of each of its lounges and group
/// chats, the permissions that its current state allows.
pub open spec fn contacts_updated(e0: Engine, e1: Engine, p: ID) -> bool {
    contacts_set(e0, e1, p, contact_perms(e0.world.actors@[p].has_modifier_spec(Modifier::NoContact)))
}

/// `e1` is `e0` with player `p` given permissions `perms` in the channel of each of its
/// lounges and group chats, and every other channel left as it is.
pub open spec fn contacts_set(e0: Engine, e1: Engine, p: ID, perms: ChannelPermissions) -> bool {
    forall|c: ID| #[trigger] e0.world.channels@.contains_key(c) ==> {
        if is_contact_channel_of(e0, e0.world.player(p).lounges@, true, c)
            || is_contact_channel_of(e0, e0.world.player(p).groupchats@, false, c) {
            perms_set(e0.world.channels@[c], e1.world.channels@[c], p, perms)
        } else {
            e1.world.channels@[c] == e0.world.channels@[c]
        }
    }
}

impl UpdateContactChannels {
    /// Why the action is refused on engine `e`, if it is.
    pub open spec fn refusal(&self, e: Engine, actor: ActionActor) -> Option<ActionError> {
        let p = self.player_id;
        if !actor.is_admin_or_system() {
            Some(ActionError::RequiresAdminOrSystem)
        } else if !e.world.actors@.contains_key(p) {
            Some(ActionError::ActorNotFound)
        } else if !e.world.is_player(p) {
            Some(ActionError::NotAPlayer)
        } else {
            match first_contact_error(e, e.world.player(p).lounges@, true) {
                Some(err) => Some(err),
                None => first_contact_error(e, e.world.player(p).groupchats@, false),
            }
        }
    }

    /// What the handler does besides answering: its effect on the engine (from `e0` to
    /// `e1`) and on the commands (from `c0` to `c1`), given its answer `r`.
    pub open spec fn effect(
        &self,
        e0: Engine,
        e1: Engine,
        c0: Seq<CommandPacket>,
        c1: Seq<CommandPacket>,
        actor: ActionActor,
        mutate: bool,
        r: ActionResult,
    ) -> bool {
        &&& (e1.wf())
        &&& (c1 =~= c0)
        &&& (!mutate ==> e1.unchanged(e0))
        &&& (e1.only_touches(e0, Touched { channels: true, ..Touched::nothing() }))
        &&& (e1.world.channels@.dom() == e0.world.channels@.dom())
        &&& (contact_channels_hold(e1, self.player_id))
        &&& (mutate && r is Ok ==> contacts_updated(e0, e1, self.player_id))
    }

    /// The answer to a request from `actor`, from the engine before (`e0`) and after (`e1`)
    /// the handler runs.
    pub open spec fn answer(&self, e0: Engine, e1: Engine, actor: ActionActor, mutate: bool) -> ActionResult {
        match self.refusal(e0, actor) {
            Some(e) => Err::<ActionResponse, ActionError>(e),
            None => Ok(ActionResponse::UpdateContactChannels(UpdateContactChannelsResponse {})),
        }
    }

    pub fn handle(
        &mut self,
        eng: &mut Engine,
        ctx: &mut ActionContext,
        actor: &ActionActor,
        version: Version,
        mutate: bool,
    ) -> (r: ActionResult)
        requires
            old(eng).wf(),
            contact_channels_hold(*old(eng), old(self).player_id),
        ensures
            final(eng).wf(),
            *final(self) == *old(self),
            final(ctx).commands@ == old(ctx).commands@,
            r == old(self).answer(*old(eng), *final(eng), *actor, mutate),
            !mutate ==> final(eng).unchanged(*old(eng)),
            final(eng).only_touches(*old(eng), Touched { channels: true, ..Touched::nothing() }),
            final(eng).world.channels@.dom() == old(eng).world.channels@.dom(),
            contact_channels_hold(*final(eng), old(self).player_id),
            mutate && r is Ok ==> contacts_updated(*old(eng), *final(eng), old(self).player_id),
            old(self).effect(*old(eng), *final(eng), old(ctx).commands@, final(ctx).commands@, *actor, mutate, r),
    {
        actor.admin_or_system()?;

        let actor_data = get_actor(eng, self.player_id)?;
        let no_contact: bool = actor_data.has_modifier(Modifier::NoContact);

        let player_data = get_player(eng, self.player_id)?;
        let lounges: Vec<ID> = player_data.lounges.clone();
        let gcs: Vec<ID> = player_data.groupchats.clone();
        let perms: ChannelPermissions = if no_contact {
            ChannelPermissions::empty()
        } else {
            ChannelPermissions::send_and_view()
        };
        let ghost e0 = *eng;
        let res = set_contact_perms(eng, self.player_id, &lounges, true, perms, mutate);
        let ghost e1 = *eng;
        proof {
            lemma_contact_channel_stable(e0, e1);
            lemma_hold_preserved(e0, e1, self.player_id);
        }
        res?;
        let res = set_contact_perms(eng, self.player_id, &gcs, false, perms, mutate);
        proof {
            let e2 = *eng;
            lemma_first_contact_error_stable(e0, e1, gcs@, false);
            lemma_contact_channel_stable(e1, e2);
            lemma_hold_preserved(e1, e2, self.player_id);
        }
        res?;
        proof {
            let e2 = *eng;
            lemma_contact_channel_stable(e1, e2);
            lemma_contact_channel_stable(e0, e2);
            let ls = e0.world.player(self.player_id).lounges@;
            let gs = e0.world.player(self.player_id).groupchats@;
            assert forall|c: ID| #[trigger] e0.world.channels@.contains_key(c) && mutate implies {
                if is_contact_channel_of(e0, ls, true, c) || is_contact_channel_of(e0, gs, false, c) {
                    perms_set(e0.world.channels@[c], e2.world.channels@[c], self.player_id, perms)
                } else {
                    e2.world.channels@[c] == e0.world.channels@[c]
                }
            } by {
                assert(is_contact_channel_of(e0, gs, false, c) == is_contact_channel_of(e1, gs, false, c));
            }
        }

        Ok(ActionResponse::UpdateContactChannels(UpdateContactChannelsResponse {}))
    }
}

} // verus!
