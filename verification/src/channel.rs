use vstd::prelude::*;

use indexmap::IndexSet;

use crate::common::ID;
use crate::indexset::{display_entries, displays_clone};
use crate::seqmap::{get_key, lemma_lookup_push, lemma_lookup_without_key, lookup, remove_key, without_key};

verus! {

/// What a message is shown as having been sent by.
#[derive(Hash, PartialEq, PartialOrd, Eq, Ord, Structural, Debug, Clone, Copy)]
pub enum SenderDisplay {
    /// The player's own identity.
    Raw(ID),
    Anonymous,
}

#[derive(PartialEq, Eq, Structural, Debug, Clone, Copy)]
pub enum ChannelPermission {
    Send,
    View,
}

/// A set of channel permissions.
#[derive(PartialEq, Eq, Structural, Debug, Clone, Copy)]
pub struct ChannelPermissions {
    pub send: bool,
    pub view: bool,
}

impl ChannelPermissions {
    pub open spec fn has(self, p: ChannelPermission) -> bool {
        match p {
            ChannelPermission::Send => self.send,
            ChannelPermission::View => self.view,
        }
    }

    /// No permission at all.
    pub fn empty() -> (p: Self)
        ensures
            p == (ChannelPermissions { send: false, view: false }),
    {
        ChannelPermissions { send: false, view: false }
    }

    /// Permission to send and to view.
    pub fn send_and_view() -> (p: Self)
        ensures
            p == (ChannelPermissions { send: true, view: true }),
    {
        ChannelPermissions { send: true, view: true }
    }

    /// Exactly one permission.
    pub fn only(p: ChannelPermission) -> (r: Self)
        ensures
            r.has(p),
            forall|q: ChannelPermission| q != p ==> !r.has(q),
    {
        match p {
            ChannelPermission::Send => ChannelPermissions { send: true, view: false },
            ChannelPermission::View => ChannelPermissions { send: false, view: true },
        }
    }

    pub fn contains(&self, p: ChannelPermission) -> (b: bool)
        ensures
            b == self.has(p),
    {
        match p {
            ChannelPermission::Send => self.send,
            ChannelPermission::View => self.view,
        }
    }

    pub fn is_empty(&self) -> (b: bool)
        ensures
            b == (!self.send && !self.view),
    {
        !self.send && !self.view
    }
}

/// A player's membership of a channel: what it may do and which displays it may send as.
#[derive(PartialEq, Eq, Debug)]
pub struct ChannelMember {
    pub perms: ChannelPermissions,
    pub displays: IndexSet<SenderDisplay>,
}

impl ChannelMember {
    pub open spec fn display_list(&self) -> Seq<SenderDisplay> {
        display_entries(self.displays)
    }

    /// A copy of the membership.
    pub fn duplicate(&self) -> (m: ChannelMember)
        ensures
            m.perms == self.perms,
            m.display_list() == self.display_list(),
    {
        self.with_perms(self.perms)
    }

    /// The same membership with other permissions.
    pub fn with_perms(&self, perms: ChannelPermissions) -> (m: ChannelMember)
        ensures
            m.perms == perms,
            m.display_list() == self.display_list(),
    {
        ChannelMember { perms, displays: displays_clone(&self.displays) }
    }
}

impl Clone for ChannelMember {
    /// A copy of the membership.
    fn clone(&self) -> (m: Self)
        ensures
            m.perms == self.perms,
            m.display_list() == self.display_list(),
    {
        self.duplicate()
    }
}

/// `b` holds the same membership settings as `a` (or none, as `a`).
pub open spec fn same_settings(a: Option<ChannelMember>, b: Option<ChannelMember>) -> bool {
    match a {
        None => b is None,
        Some(x) => b matches Some(y) && y.perms == x.perms && y.display_list() == x.display_list(),
    }
}

/// A channel: who is in it, with what permissions, and whether it may be logged.
pub struct Channel {
    pub loggable: bool,
    pub members: Vec<(ID, ChannelMember)>,
}

impl Channel {
    pub fn new(loggable: bool) -> (c: Self)
        ensures
            c.loggable == loggable,
            c.members@ == Seq::<(ID, ChannelMember)>::empty(),
    {
        Channel { loggable, members: Vec::new() }
    }

    /// The membership of a player, if it is a member.
    pub open spec fn member(&self, id: ID) -> Option<ChannelMember> {
        lookup(self.members@, id)
    }

    pub fn get_member(&self, id: ID) -> (r: Option<&ChannelMember>)
        ensures
            r matches Some(m) ==> self.member(id) == Some(*m),
            r is None ==> self.member(id) is None,
    {
        get_key(&self.members, id)
    }

    /// Makes a player a member with the given settings, or removes it with `None`.
    pub fn set_member(&mut self, id: ID, settings: Option<ChannelMember>)
        ensures
            final(self).loggable == old(self).loggable,
            final(self).members@ == match settings {
                Some(m) => without_key(old(self).members@, id).push((id, m)),
                None => without_key(old(self).members@, id),
            },
            final(self).member(id) == settings,
            forall|q: ID| q != id ==> #[trigger] final(self).member(q) == old(self).member(q),
    {
        remove_key(&mut self.members, id);
        let ghost mid = self.members@;
        match settings {
            Some(m) => {
                self.members.push((id, m));
                proof {
                    lemma_lookup_push(mid, (id, m), id);
                    assert forall|q: ID| q != id implies #[trigger] lookup(self.members@, q) == lookup(old(self).members@, q) by {
                        lemma_lookup_push(mid, (id, m), q);
                        lemma_lookup_without_key(old(self).members@, id, q);
                    }
                }
            },
            None => {
                proof {
                    lemma_lookup_without_key(old(self).members@, id, id);
                    assert forall|q: ID| q != id implies #[trigger] lookup(self.members@, q) == lookup(old(self).members@, q) by {
                        lemma_lookup_without_key(old(self).members@, id, q);
                    }
                }
            },
        }
    }
}

} // verus!
