use vstd::prelude::*;

use crate::common::ID;
use crate::idset::{contains_id, insert_id, remove_id, without};

verus! {

/// A group chat: a channel with an owner and a member list.
#[derive(PartialEq, Eq, Debug, Clone)]
pub struct Groupchat {
    pub channel_id: ID,
    pub owner: Option<ID>,
    pub members: Vec<ID>,
}

impl Groupchat {
    pub fn new(channel_id: ID) -> (g: Self)
        ensures
            g.channel_id == channel_id,
            g.owner is None,
            g.members@ == Seq::<ID>::empty(),
    {
        Groupchat { channel_id, owner: None, members: Vec::new() }
    }

    pub fn contains_member(&self, id: ID) -> (b: bool)
        ensures
            b == self.members@.contains(id),
    {
        contains_id(&self.members, id)
    }

    pub fn add_member(&mut self, id: ID)
        ensures
            *final(self) == (Groupchat { members: final(self).members, ..*old(self) }),
            final(self).members@ == if old(self).members@.contains(id) { old(self).members@ } else { old(self).members@.push(id) },
    {
        insert_id(&mut self.members, id);
    }

    pub fn remove_member(&mut self, id: ID)
        ensures
            *final(self) == (Groupchat { members: final(self).members, ..*old(self) }),
            final(self).members@ == without(old(self).members@, id),
    {
        remove_id(&mut self.members, id);
    }

    pub fn set_owner(&mut self, owner: Option<ID>)
        ensures
            *final(self) == (Groupchat { owner, ..*old(self) }),
    {
        self.owner = owner;
    }
}

} // verus!
