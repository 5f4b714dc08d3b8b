use vstd::prelude::*;

use crate::common::ID;

verus! {

/// Who owns a transferable world object (ability, passive), whether it may change hands,
/// and whether it is volatile: a volatile object is destroyed when its owner's role changes.
#[derive(PartialEq, Eq, Structural, Clone, Copy, Debug)]
pub struct OwnershipStruct {
    pub owner: Option<ID>,
    pub transferrable: bool,
    pub volatile: bool,
}

impl OwnershipStruct {
    pub open spec fn new_spec(transferrable: bool) -> Self {
        OwnershipStruct { owner: None, transferrable, volatile: false }
    }

    pub fn new(transferrable: bool) -> (o: Self)
        ensures
            o == (OwnershipStruct { owner: None, transferrable, volatile: false }),
    {
        OwnershipStruct { owner: None, transferrable, volatile: false }
    }

    pub fn set_owner(&mut self, owner: ID, volatile: bool)
        ensures
            *final(self) == (OwnershipStruct {
                owner: Some(owner),
                transferrable: old(self).transferrable,
                volatile,
            }),
    {
        self.owner = Some(owner);
        self.volatile = volatile;
    }
}

} // verus!
