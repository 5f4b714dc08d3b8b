use vstd::prelude::*;

use crate::common::{ChargeCount, ID, IterationCount, LinkWeight};

verus! {

/// How an ability depends on a charge pool.
///
/// A `Limit` link must be able to pay for every use; of the `Pool` links of an ability,
/// at least one must be able to pay.
#[derive(Hash, PartialEq, PartialOrd, Eq, Ord, Structural, Debug, Clone, Copy)]
pub enum PoolLinkType {
    Limit,
    Pool,
}

#[derive(Hash, PartialEq, PartialOrd, Eq, Ord, Structural, Debug, Clone, Copy)]
pub struct PoolLink {
    pub link_type: PoolLinkType,
    pub link_dest: ID,
    pub weight: LinkWeight,
}

/// A store of charges that linked abilities draw from.  `ref_count` counts the ability
/// links that point at the pool.
#[derive(PartialEq, Eq, Structural, Debug, Clone, Copy)]
pub struct ChargePool {
    pub charges: ChargeCount,
    pub base_charges: ChargeCount,
    pub base_reset_time: IterationCount,
    pub ref_count: u64,
}

impl ChargePool {
    pub fn new(base_charges: ChargeCount, base_reset_time: IterationCount) -> (p: Self)
        ensures
            p == (ChargePool { charges: base_charges, base_charges, base_reset_time, ref_count: 0 }),
    {
        ChargePool { charges: base_charges, base_charges, base_reset_time, ref_count: 0 }
    }

    /// Adds charges, saturating at the largest count.
    pub fn add_charges(&mut self, charges: ChargeCount)
        ensures
            *final(self) == (ChargePool {
                charges: if old(self).charges + charges > ChargeCount::MAX {
                    ChargeCount::MAX
                } else {
                    (old(self).charges + charges) as ChargeCount
                },
                ..*old(self)
            }),
    {
        self.charges = self.charges.saturating_add(charges);
    }

    pub fn can_use_charges(&self, weight: LinkWeight) -> (b: bool)
        ensures
            b == (self.charges >= weight),
    {
        self.charges >= weight
    }

    pub fn use_charges(&mut self, weight: LinkWeight)
        requires
            old(self).charges >= weight,
        ensures
            *final(self) == (ChargePool { charges: (old(self).charges - weight) as ChargeCount, ..*old(self) }),
    {
        self.charges = self.charges - weight;
    }

    /// Records one more link to this pool (saturating).
    pub fn on_link(&mut self)
        ensures
            *final(self) == (ChargePool {
                ref_count: if old(self).ref_count == u64::MAX { u64::MAX } else { (old(self).ref_count + 1) as u64 },
                ..*old(self)
            }),
    {
        self.ref_count = self.ref_count.saturating_add(1);
    }

    /// Records one link fewer (never below zero); returns whether no link is left.
    pub fn on_unlink(&mut self) -> (unlinked: bool)
        ensures
            *final(self) == (ChargePool {
                ref_count: if old(self).ref_count == 0 { 0 } else { (old(self).ref_count - 1) as u64 },
                ..*old(self)
            }),
            unlinked == (final(self).ref_count == 0),
    {
        if self.ref_count > 0 {
            self.ref_count = self.ref_count - 1;
        }
        self.ref_count == 0
    }
}

} // verus!
