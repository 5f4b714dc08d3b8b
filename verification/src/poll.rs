use vstd::prelude::*;

use crate::action::Action;
use crate::common::{ID, Time};

verus! {

/// Who may vote in a poll.
#[derive(PartialEq, Eq, Structural, Debug, Clone, Copy)]
pub enum VoterPolicy {
    /// The members who are present.
    Present,
}

/// Who sees a poll.
#[derive(PartialEq, Eq, Structural, Debug, Clone, Copy)]
pub enum PollVisibility {
    /// The members of an organization.
    Org(ID),
}

/// How a poll is decided.
#[derive(PartialEq, Eq, Structural, Debug, Clone, Copy)]
pub enum PollPolicy {
    Majority,
}

/// A poll: once decided, its payload is carried out.
#[derive(Debug)]
pub struct Poll {
    pub voter_policy: VoterPolicy,
    pub visibility: PollVisibility,
    pub update_policy: PollPolicy,
    pub timeout_policy: PollPolicy,
    pub payload: Box<Action>,
    pub duration: Option<Time>,
}

} // verus!
