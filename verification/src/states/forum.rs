//! The forum: one tenant of the economy, with its round clock and its rules.

use vstd::prelude::*;
use crate::key::Key;
use crate::states::shared::ActionPoints;

verus! {

/// Values that change each time the round advances.
#[derive(Clone, Copy, Debug, PartialEq, Eq, Structural)]
pub struct RoundStatus {
    /// Number of the round that is running.
    pub round_number: u64,
    /// Time at which the running round started, in seconds.
    pub round_start_time: i64,
    /// Most that may be paid out in the running round.
    pub round_max_distribution: u64,
    /// Fixed-point multiplier applied to every reward of the running round.
    pub round_distribution_rate: u64,
}

/// Rules of a round. They are edited as `next_round_config` and take effect
/// when the round advances.
#[derive(Clone, Copy, Debug, PartialEq, Eq, Structural)]
pub struct RoundConfig {
    /// Length of a round in seconds.
    pub round_duration: u64,
    /// Lower bound of the distribution rate.
    pub round_min_distribution_rate: u64,
    /// Upper bound of the distribution rate.
    pub round_max_distribution_rate: u64,
    /// Reward coefficient of a comment.
    pub k_comment: u64,
    /// Reward coefficient of a quote.
    pub k_quote: u64,
    /// Reward coefficient for giving a reaction.
    pub k_reaction_giver: u64,
    /// Reward coefficient for receiving a reaction.
    pub k_reaction_receiver: u64,
    /// Fixed-point decay applied to repeated interactions.
    pub decay_factor: u64,
    /// Budget that every participant is refilled to once per round.
    pub default_action_points: ActionPoints,
}

/// One tenant of the economy: who runs it, which token it pays in, which
/// collection takes part, and the state and rules of its rounds.
#[derive(Clone, Copy, Debug, PartialEq, Eq)]
pub struct Forum {
    /// Who administers the forum.
    pub admin: Key,
    /// The reward token.
    pub mint: Key,
    /// The collection whose assets may take part.
    pub nft_collection: Key,
    /// What has been paid out so far, counted against the round's cap.
    pub round_distributed: u64,
    pub round_status: RoundStatus,
    pub round_config: RoundConfig,
    /// Staged rules, copied into `round_config` when the round advances.
    pub next_round_config: RoundConfig,
    pub bump: u8,
}

impl Forum {
    /// What may still be paid out under the round's cap: never negative, and
    /// zero once the cap is used up.
    pub open spec fn spec_remaining_emission(&self) -> u64 {
        if self.round_status.round_max_distribution >= self.round_distributed {
            (self.round_status.round_max_distribution - self.round_distributed) as u64
        } else {
            0
        }
    }

    #[verifier::when_used_as_spec(spec_remaining_emission)]
    pub fn remaining_emission(&self) -> (r: u64)
        ensures
            r == self.spec_remaining_emission(),
    {
        self.round_status.round_max_distribution.saturating_sub(self.round_distributed)
    }

    /// The payout so far is within the round's cap.
    pub open spec fn within_cap(&self) -> bool {
        self.round_distributed <= self.round_status.round_max_distribution
    }
}

} // verus!
