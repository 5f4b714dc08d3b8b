use vstd::prelude::*;

verus! {

/// Key of any world object.
pub type ID = u64;

pub type ActorKey = ID;

pub type AbilityKey = ID;

pub type ChargePoolKey = ID;

pub type BugKey = ID;

pub type ChannelKey = ID;

pub type PollKey = ID;

/// A point in game time.
pub type Time = u64;

/// Protocol version of a request.
pub type Version = u8;

/// Variant of an ability (0 by default; meanings are given per ability by the config).
pub type Variant = u8;

/// How many charges one use of a linked ability draws from a pool.
pub type LinkWeight = u32;

pub type ChargeCount = u32;

pub type IterationCount = u32;

} // verus!
