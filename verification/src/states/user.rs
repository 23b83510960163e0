//! The participant.

use vstd::prelude::*;
use crate::key::Key;
use crate::states::shared::ActionPoints;

verus! {

/// Most entries that a participant's interaction metrics may hold.
pub const MAX_INTERACTION_METRICS: usize = 30;

/// How often a participant has interacted with one other participant in the
/// running round.
#[derive(Clone, Copy, Debug, PartialEq, Eq)]
pub struct InteractionMetricEntry {
    pub short_user_id: [u8; 6],
    pub count: u8,
}

/// A participant: its budget for the round, what it has earned, and what it
/// has done and received so far.
#[derive(Clone, Debug, PartialEq, Eq)]
pub struct User {
    /// The asset that identifies the participant.
    pub nft_mint: Key,
    /// Reward earned and not yet paid out.
    pub claimable_amount: u64,
    /// Last round for which the budget was refilled.
    pub local_round_number: u64,
    pub action_points: ActionPoints,
    /// Per-round interaction tallies, cleared with every refill.
    pub interaction_metrics: Vec<InteractionMetricEntry>,
    pub post_count: u32,
    pub comment_count: u32,
    pub upvote_count: u32,
    pub downvote_count: u32,
    pub like_count: u32,
    pub banvote_count: u32,
    /// Reactions given, of every kind.
    pub reaction_count: u32,
    pub received_upvote_count: u64,
    pub received_downvote_count: u64,
    pub received_like_count: u64,
    pub received_banvote_count: u64,
    /// Reactions received, of every kind.
    pub received_reaction_count: u64,
    pub received_comment_count: u64,
    pub personality: String,
    pub name: String,
    pub thumb: String,
    /// Delegate who may act for the participant, if any.
    pub operator: Option<Key>,
    pub bump: u8,
}

/// A participant as a mathematical value.
pub struct UserView {
    pub nft_mint: Key,
    pub claimable_amount: u64,
    pub local_round_number: u64,
    pub action_points: ActionPoints,
    pub interaction_metrics: Seq<InteractionMetricEntry>,
    pub post_count: u32,
    pub comment_count: u32,
    pub upvote_count: u32,
    pub downvote_count: u32,
    pub like_count: u32,
    pub banvote_count: u32,
    pub reaction_count: u32,
    pub received_upvote_count: u64,
    pub received_downvote_count: u64,
    pub received_like_count: u64,
    pub received_banvote_count: u64,
    pub received_reaction_count: u64,
    pub received_comment_count: u64,
    pub personality: Seq<char>,
    pub name: Seq<char>,
    pub thumb: Seq<char>,
    pub operator: Option<Key>,
    pub bump: u8,
}

impl View for User {
    type V = UserView;

    open spec fn view(&self) -> UserView {
        UserView {
            nft_mint: self.nft_mint,
            claimable_amount: self.claimable_amount,
            local_round_number: self.local_round_number,
            action_points: self.action_points,
            interaction_metrics: self.interaction_metrics@,
            post_count: self.post_count,
            comment_count: self.comment_count,
            upvote_count: self.upvote_count,
            downvote_count: self.downvote_count,
            like_count: self.like_count,
            banvote_count: self.banvote_count,
            reaction_count: self.reaction_count,
            received_upvote_count: self.received_upvote_count,
            received_downvote_count: self.received_downvote_count,
            received_like_count: self.received_like_count,
            received_banvote_count: self.received_banvote_count,
            received_reaction_count: self.received_reaction_count,
            received_comment_count: self.received_comment_count,
            personality: self.personality@,
            name: self.name@,
            thumb: self.thumb@,
            operator: self.operator,
            bump: self.bump,
        }
    }
}

impl UserView {
    /// The interaction metrics stay within their bound.
    pub open spec fn wf(self) -> bool {
        self.interaction_metrics.len() <= MAX_INTERACTION_METRICS
    }
}

} // verus!
