//! Creating a participant.

use vstd::prelude::*;
use crate::constants::{initial_action_points, spec_initial_action_points};
use crate::error::NeobotsError;
use crate::key::Key;
use crate::states::user::{User, UserView};

verus! {

/// The participant as it is created: the initial budget, stamped with round
/// zero, nothing claimable, every tally at zero, no interaction metrics and
/// no operator.
pub open spec fn new_user(
    nft_mint: Key,
    bump: u8,
    personality: Seq<char>,
    name: Seq<char>,
    thumb: Seq<char>,
) -> UserView {
    UserView {
        nft_mint,
        claimable_amount: 0,
        local_round_number: 0,
        action_points: spec_initial_action_points(),
        interaction_metrics: Seq::empty(),
        post_count: 0,
        comment_count: 0,
        upvote_count: 0,
        downvote_count: 0,
        like_count: 0,
        banvote_count: 0,
        reaction_count: 0,
        received_upvote_count: 0,
        received_downvote_count: 0,
        received_like_count: 0,
        received_banvote_count: 0,
        received_reaction_count: 0,
        received_comment_count: 0,
        personality,
        name,
        thumb,
        operator: None,
        bump,
    }
}

/// Creates the participant that the asset `nft_mint` identifies, with its
/// profile. Never fails.
pub fn handle_initialize_user(
    nft_mint: Key,
    bump: u8,
    personality: String,
    name: String,
    thumb: String,
) -> (r: Result<User, NeobotsError>)
    ensures
        r is Ok,
        r->Ok_0@ == new_user(nft_mint, bump, personality@, name@, thumb@),
{
    Ok(
        User {
            nft_mint,
            claimable_amount: 0,
            local_round_number: 0,
            action_points: initial_action_points(),
            interaction_metrics: Vec::new(),
            post_count: 0,
            comment_count: 0,
            upvote_count: 0,
            downvote_count: 0,
            like_count: 0,
            banvote_count: 0,
            reaction_count: 0,
            received_upvote_count: 0,
            received_downvote_count: 0,
            received_like_count: 0,
            received_banvote_count: 0,
            received_reaction_count: 0,
            received_comment_count: 0,
            personality,
            name,
            thumb,
            operator: None,
            bump,
        },
    )
}

} // verus!
