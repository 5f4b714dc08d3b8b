use vstd::prelude::*;

use crate::common::ID;

verus! {

/// Where the log of a bug goes.
#[derive(PartialEq, Eq, Structural, Debug, Clone, Copy)]
pub enum BugSource {
    /// To the owner of this ability.
    Ability(ID),
    /// To every present player with a custody bug receiver passive.
    Custody,
}

/// A bug relays the messages of its target player to a bug log.
#[derive(PartialEq, Eq, Structural, Debug, Clone, Copy)]
pub struct Bug {
    pub target_id: ID,
    pub source: BugSource,
    pub enabled: bool,
}

impl Bug {
    pub open spec fn new_spec(target_id: ID, ability_id: ID) -> Bug {
        Bug { target_id, source: BugSource::Ability(ability_id), enabled: true }
    }

    pub fn new(target_id: ID, ability_id: ID) -> (b: Self)
        ensures
            b == Bug::new_spec(target_id, ability_id),
    {
        Bug { target_id, source: BugSource::Ability(ability_id), enabled: true }
    }

    pub open spec fn from_ability(&self, ability_id: ID) -> bool {
        self.source == BugSource::Ability(ability_id)
    }
}

} // verus!
