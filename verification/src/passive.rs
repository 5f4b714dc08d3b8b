use vstd::prelude::*;

use crate::ownership::OwnershipStruct;

verus! {

#[derive(Hash, PartialEq, PartialOrd, Eq, Ord, Structural, Debug, Clone, Copy)]
pub enum PassiveType {
    /// The holder sees what custody bugs log.
    CustodyBugReceiver,
    NightImmunity,
}

#[derive(PartialEq, Eq, Structural, Debug, Clone, Copy)]
pub struct Passive {
    pub ownership_struct: OwnershipStruct,
    pub passive_type: PassiveType,
}

} // verus!
