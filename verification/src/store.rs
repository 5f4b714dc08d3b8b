use vstd::prelude::*;

use crate::common::ID;

verus! {

/// A keyed collection of world objects.
///
/// Keys are handed out in increasing order and never reused: the slot of a removed
/// object stays empty.  The model of a store is the map from the keys of the objects it
/// holds to those objects.
pub struct Store<V> {
    slots: Vec<Option<V>>,
}

impl<V> Store<V> {
    /// The objects held, by key.
    pub closed spec fn view(&self) -> Map<ID, V> {
        Map::new(
            |k: ID| (k as int) < self.slots@.len() && self.slots@[k as int] is Some,
            |k: ID| self.slots@[k as int]->0,
        )
    }

    /// The key that the next insertion will use.
    pub closed spec fn next_key(&self) -> int {
        self.slots@.len() as int
    }

    /// Whether a key was ever handed out by this store (its slot exists, full or empty).
    pub open spec fn has_slot(&self, k: ID) -> bool {
        (k as int) < self.next_key()
    }

    /// Every key in use was handed out before.
    pub proof fn lemma_keys_below_next(&self, k: ID)
        ensures
            self@.contains_key(k) ==> self.has_slot(k),
            self.next_key() >= 0,
    {
    }

    /// Keys fit a `usize`.
    pub proof fn lemma_next_key_bounded(&self)
        ensures
            0 <= self.next_key() <= usize::MAX,
    {
        assert(self.slots.len() == self.slots@.len());
    }

    pub fn new() -> (s: Self)
        ensures
            s@ == Map::<ID, V>::empty(),
            s.next_key() == 0,
    {
        let s = Store { slots: Vec::new() };
        assert(s@ =~= Map::<ID, V>::empty());
        s
    }

    pub fn len_slots(&self) -> (n: usize)
        ensures
            n == self.next_key(),
    {
        self.slots.len()
    }

    pub fn contains(&self, k: ID) -> (b: bool)
        ensures
            b == self@.contains_key(k),
            b ==> self.has_slot(k),
    {
        if k < self.slots.len() as u64 {
            self.slots[k as usize].is_some()
        } else {
            false
        }
    }

    pub fn get(&self, k: ID) -> (r: Option<&V>)
        ensures
            r matches Some(v) ==> self@.contains_key(k) && *v == self@[k] && self.has_slot(k),
            r is None ==> !self@.contains_key(k),
    {
        if k < self.slots.len() as u64 {
            match &self.slots[k as usize] {
                Some(v) => Some(v),
                None => None,
            }
        } else {
            None
        }
    }

    /// Stores a new object under a fresh key and returns the key.
    pub fn add(&mut self, v: V) -> (k: ID)
        ensures
            k == old(self).next_key(),
            !old(self)@.contains_key(k),
            final(self)@ == old(self)@.insert(k, v),
            final(self).next_key() == old(self).next_key() + 1,
    {
        self.slots.push(Some(v));
        let n: usize = self.slots.len();
        let k: u64 = (n - 1) as u64;
        assert(self@ =~= old(self)@.insert(k, v));
        k
    }

    /// Removes the object under a key, if any, and returns it.  The slot stays, empty.
    pub fn take(&mut self, k: ID) -> (r: Option<V>)
        ensures
            final(self)@ == old(self)@.remove(k),
            final(self).next_key() == old(self).next_key(),
            r matches Some(v) ==> old(self)@.contains_key(k) && v == old(self)@[k] && old(self).has_slot(k),
            r is None ==> !old(self)@.contains_key(k),
    {
        if k < self.slots.len() as u64 {
            let mut r: Option<V> = None;
            std::mem::swap(&mut r, &mut self.slots[k as usize]);
            assert(self@ =~= old(self)@.remove(k));
            r
        } else {
            assert(self@ =~= old(self)@.remove(k));
            None
        }
    }

    /// Stores an object under a key that this store handed out before.
    pub fn put(&mut self, k: ID, v: V)
        requires
            old(self).has_slot(k),
        ensures
            final(self)@ == old(self)@.insert(k, v),
            final(self).next_key() == old(self).next_key(),
    {
        let n: usize = self.slots.len();
        assert((k as int) < n as int);
        let i: usize = k as usize;
        let mut slot: Option<V> = Some(v);
        std::mem::swap(&mut slot, &mut self.slots[i]);
        assert(self@ =~= old(self)@.insert(k, v));
    }

    /// Removes the object under a key, if any.
    pub fn remove(&mut self, k: ID)
        ensures
            final(self)@ == old(self)@.remove(k),
            final(self).next_key() == old(self).next_key(),
    {
        let _ = self.take(k);
    }
}

} // verus!
