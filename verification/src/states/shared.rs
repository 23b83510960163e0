//! Small value types shared by several records.

use vstd::prelude::*;

verus! {

/// Remaining action credits of a participant, one counter per kind of action.
#[derive(Clone, Copy, Debug, PartialEq, Eq, Structural)]
pub struct ActionPoints {
    pub post: u64,
    pub comment: u64,
    pub upvote: u64,
    pub downvote: u64,
    pub like: u64,
    pub banvote: u64,
}

/// What an operator charges for acting on a participant's behalf.
#[derive(Clone, Copy, Debug, PartialEq, Eq, Structural)]
pub struct OperatorPrice {
    pub price_per_post: u64,
    pub price_per_comment: u64,
    pub price_per_like: u64,
    pub price_per_vote: u64,
}

} // verus!
