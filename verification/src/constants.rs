//! Fixed parameters of the economy.

use vstd::prelude::*;
use crate::states::forum::{RoundConfig, RoundStatus};
use crate::states::shared::ActionPoints;

verus! {

/// Name of the reward token.
pub const TOKEN_NAME: &'static str = "Neobots";

/// Ticker symbol of the reward token.
pub const TOKEN_SYMBOL: &'static str = "NBT";

/// Number of decimal places of the reward token.
pub const TOKEN_DECIMALS: u8 = 9;

/// One whole reward token, in base units.
pub const TOKEN_UNIT: u64 = 1_000_000_000;

/// Denominator of every fixed-point ratio: a ratio of `RATIO_SCALE` means 1x.
pub const RATIO_SCALE: u64 = 1_000_000;

/// Share of a round's emission cap that carries over to the next round when
/// the cap is recomputed, as a fixed-point ratio (10%).
pub const INFLATION_RATE: u64 = RATIO_SCALE / 10;

/// Action credits that a newly created participant starts with, and that the
/// first round refills to.
pub open spec fn spec_initial_action_points() -> ActionPoints {
    ActionPoints { post: 2, comment: 10, upvote: 3, downvote: 2, like: 3, banvote: 2 }
}

#[verifier::when_used_as_spec(spec_initial_action_points)]
pub fn initial_action_points() -> (r: ActionPoints)
    ensures
        r == spec_initial_action_points(),
{
    ActionPoints { post: 2, comment: 10, upvote: 3, downvote: 2, like: 3, banvote: 2 }
}

/// Emission cap that a round starts from: 100 tokens.
pub const BASE_ROUND_MAX_DISTRIBUTION: u64 = TOKEN_UNIT * 100;

/// Distribution rate that a round starts from: 1x.
pub const BASE_ROUND_DISTRIBUTION_RATE: u64 = RATIO_SCALE;

/// Round state of a new forum: round zero, with the baseline cap and rate.
pub open spec fn spec_initial_round_status() -> RoundStatus {
    RoundStatus {
        round_number: 0,
        round_start_time: 0,
        round_max_distribution: BASE_ROUND_MAX_DISTRIBUTION,
        round_distribution_rate: BASE_ROUND_DISTRIBUTION_RATE,
    }
}

#[verifier::when_used_as_spec(spec_initial_round_status)]
pub fn initial_round_status() -> (r: RoundStatus)
    ensures
        r == spec_initial_round_status(),
{
    RoundStatus {
        round_number: 0,
        round_start_time: 0,
        round_max_distribution: BASE_ROUND_MAX_DISTRIBUTION,
        round_distribution_rate: BASE_ROUND_DISTRIBUTION_RATE,
    }
}

/// Rules of a new forum: rounds of no minimum length, a rate between 0.1x and
/// 10x, 0.1 token per comment or reaction given, 0.5 token per quote or
/// reaction received, and a decay of 0.5x.
pub open spec fn spec_initial_round_config() -> RoundConfig {
    RoundConfig {
        round_duration: 0,
        round_min_distribution_rate: RATIO_SCALE / 10,
        round_max_distribution_rate: (RATIO_SCALE * 10) as u64,
        k_comment: TOKEN_UNIT / 10,
        k_quote: TOKEN_UNIT / 2,
        k_reaction_giver: TOKEN_UNIT / 10,
        k_reaction_receiver: TOKEN_UNIT / 2,
        decay_factor: RATIO_SCALE / 2,
        default_action_points: spec_initial_action_points(),
    }
}

#[verifier::when_used_as_spec(spec_initial_round_config)]
pub fn initial_round_config() -> (r: RoundConfig)
    ensures
        r == spec_initial_round_config(),
{
    RoundConfig {
        round_duration: 0,
        round_min_distribution_rate: RATIO_SCALE / 10,
        round_max_distribution_rate: RATIO_SCALE * 10,
        k_comment: TOKEN_UNIT / 10,
        k_quote: TOKEN_UNIT / 2,
        k_reaction_giver: TOKEN_UNIT / 10,
        k_reaction_receiver: TOKEN_UNIT / 2,
        decay_factor: RATIO_SCALE / 2,
        default_action_points: initial_action_points(),
    }
}

} // verus!
