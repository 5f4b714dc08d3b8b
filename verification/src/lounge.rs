use vstd::prelude::*;

use crate::common::ID;

verus! {

#[derive(PartialEq, Eq, Structural, Debug, Clone, Copy)]
pub enum LoungeVariant {
    /// A lounge that only its creator sees, speaking as both sides.
    Fake { creator_id: ID, contacted_id: ID, contactor_id: ID },
    /// A lounge between a contactor and the player it contacted.
    Basic { contacted_id: ID, contactor_id: ID },
}

/// A private conversation over a channel.
#[derive(PartialEq, Eq, Structural, Debug, Clone, Copy)]
pub struct Lounge {
    pub channel_id: ID,
    pub variant: LoungeVariant,
}

} // verus!
