use vstd::prelude::*;

use crate::common::ID;

verus! {

#[derive(PartialEq, Eq, Structural, Debug, Clone, Copy)]
pub struct Notebook {
    pub owner: Option<ID>,
    pub volatile: bool,
    pub fake: bool,
}

impl Notebook {
    pub fn new(fake: bool) -> (n: Self)
        ensures
            n == (Notebook { owner: None, volatile: false, fake }),
    {
        Notebook { owner: None, volatile: false, fake }
    }

    pub fn set_true_owner(&mut self, owner: ID, volatile: bool)
        ensures
            *final(self) == (Notebook { owner: Some(owner), volatile, fake: old(self).fake }),
    {
        self.owner = Some(owner);
        self.volatile = volatile;
    }
}

} // verus!
