//! The audit trail of rewards.

use vstd::prelude::*;
use crate::key::Key;

verus! {

/// Why a reward was credited.
#[derive(Clone, Copy, Debug, PartialEq, Eq, Structural)]
pub enum RewardReason {
    /// For writing a comment.
    CommentCreator,
    /// For giving a reaction.
    ReactionGiver,
    /// For receiving a reaction on a comment.
    ReactionReceiver,
}

/// One credit, as it is written to the audit trail.
#[derive(Clone, Copy, Debug, PartialEq, Eq)]
pub struct RewardRecord {
    /// The participant record that was credited.
    pub user: Key,
    pub amount: u64,
    pub reason: RewardReason,
}

} // verus!
