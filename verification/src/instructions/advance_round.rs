//! The round clock.

use vstd::prelude::*;
use crate::constants::{
    BASE_ROUND_DISTRIBUTION_RATE, BASE_ROUND_MAX_DISTRIBUTION, INFLATION_RATE, RATIO_SCALE,
};
use crate::error::NeobotsError;
use crate::ratio::{ratio_of, scale_by, spec_ratio_of, spec_scale_by};
use crate::states::forum::{Forum, RoundConfig, RoundStatus};

verus! {

/// How the emission cap and the distribution rate of the next round are set.
/// Which of the two a deployment wants is left to the caller.
#[derive(Clone, Copy, Debug, PartialEq, Eq, Structural)]
pub enum RoundPolicy {
    /// Every round starts from the baseline cap and rate, and the payout
    /// counter runs on.
    FixedBaseline,
    /// The rate follows how much of the last cap was paid out, within the
    /// bounds of the rules; the cap shrinks by the inflation rate; and the
    /// payout counter starts again at zero.
    Adaptive,
}

/// The running round has lasted its full duration at time `now`.
pub open spec fn round_has_elapsed(forum: Forum, now: i64) -> bool {
    now >= forum.round_status.round_start_time + forum.round_config.round_duration
}

/// `rate` held to the bounds of `config`: raised to the lower bound if it is
/// below it, else lowered to the upper bound if it is above that.
pub open spec fn spec_bounded_rate(rate: u64, config: &RoundConfig) -> u64 {
    if rate < config.round_min_distribution_rate {
        config.round_min_distribution_rate
    } else if rate > config.round_max_distribution_rate {
        config.round_max_distribution_rate
    } else {
        rate
    }
}

#[verifier::when_used_as_spec(spec_bounded_rate)]
pub fn bounded_rate(rate: u64, config: &RoundConfig) -> (r: u64)
    ensures
        r == spec_bounded_rate(rate, config),
{
    if rate < config.round_min_distribution_rate {
        config.round_min_distribution_rate
    } else if rate > config.round_max_distribution_rate {
        config.round_max_distribution_rate
    } else {
        rate
    }
}

/// The adaptive rate for the round after the one that `forum` is in: the
/// round's cap over what was paid out of it (1x if nothing was), held to the
/// bounds of the rules that the next round runs under.
pub open spec fn spec_adaptive_rate(forum: &Forum) -> u64 {
    let raw = if forum.round_distributed > 0 {
        spec_ratio_of(forum.round_status.round_max_distribution, forum.round_distributed)
    } else {
        RATIO_SCALE
    };
    spec_bounded_rate(raw, &forum.next_round_config)
}

#[verifier::when_used_as_spec(spec_adaptive_rate)]
pub fn adaptive_rate(forum: &Forum) -> (r: u64)
    ensures
        r == spec_adaptive_rate(forum),
{
    let raw = if forum.round_distributed > 0 {
        ratio_of(forum.round_status.round_max_distribution, forum.round_distributed)
    } else {
        RATIO_SCALE
    };
    bounded_rate(raw, &forum.next_round_config)
}

/// The adaptive cap for the round after the one that `forum` is in: the
/// running cap scaled by the inflation rate.
pub open spec fn spec_adaptive_cap(forum: &Forum) -> u64 {
    spec_scale_by(forum.round_status.round_max_distribution, INFLATION_RATE)
}

#[verifier::when_used_as_spec(spec_adaptive_cap)]
pub fn adaptive_cap(forum: &Forum) -> (r: u64)
    ensures
        r == spec_adaptive_cap(forum),
{
    scale_by(forum.round_status.round_max_distribution, INFLATION_RATE)
}

/// The forum after the round advanced at time `now`, or why it may not. The
/// staged rules take effect, the round number grows by one and the round
/// starts at `now`; cap, rate and payout counter follow the policy.
pub open spec fn advanced(forum: Forum, now: i64, policy: RoundPolicy) -> Result<
    Forum,
    NeobotsError,
> {
    if !round_has_elapsed(forum, now) {
        Err(NeobotsError::TooEarlyToAdvanceRound)
    } else if forum.round_status.round_number == u64::MAX {
        Err(NeobotsError::MathOverflow)
    } else {
        let round_number = (forum.round_status.round_number + 1) as u64;
        Ok(
            match policy {
                RoundPolicy::FixedBaseline => Forum {
                    round_config: forum.next_round_config,
                    round_status: RoundStatus {
                        round_number,
                        round_start_time: now,
                        round_max_distribution: BASE_ROUND_MAX_DISTRIBUTION,
                        round_distribution_rate: BASE_ROUND_DISTRIBUTION_RATE,
                    },
                    ..forum
                },
                RoundPolicy::Adaptive => Forum {
                    round_config: forum.next_round_config,
                    round_status: RoundStatus {
                        round_number,
                        round_start_time: now,
                        round_max_distribution: spec_adaptive_cap(&forum),
                        round_distribution_rate: spec_adaptive_rate(&forum),
                    },
                    round_distributed: 0,
                    ..forum
                },
            },
        )
    }
}

/// Whether the running round has lasted its full duration at time `now`.
pub fn is_round_over(forum: &Forum, now: i64) -> (r: bool)
    ensures
        r == round_has_elapsed(*forum, now),
{
    let end: i128 = forum.round_status.round_start_time as i128
        + forum.round_config.round_duration as i128;
    now as i128 >= end
}

/// Starts the next round at time `now`.
///
/// Fails with `TooEarlyToAdvanceRound` while `now` is before the running
/// round's start plus its duration, and with `MathOverflow` if the round
/// number cannot grow. Otherwise the staged rules become the rules in force,
/// the round number grows by exactly one and the round's start is `now`.
/// Under `FixedBaseline` the cap and the rate return to their baseline and
/// the payout counter is left alone. Under `Adaptive` the rate is
/// `adaptive_rate`, the cap is `adaptive_cap` and the payout counter returns
/// to zero. Administrator, token, collection and the staged rules stay. No
/// participant is touched: each catches up on its next action.
pub fn handle_advance_round(forum: &mut Forum, now: i64, policy: RoundPolicy) -> (r: Result<
    (),
    NeobotsError,
>)
    ensures
        match advanced(*old(forum), now, policy) {
            Ok(after) => r is Ok && *final(forum) == after,
            Err(e) => r == Err::<(), NeobotsError>(e) && *final(forum) == *old(forum),
        },
        final(forum).round_status.round_number >= old(forum).round_status.round_number,
        r is Ok ==> final(forum).round_status.round_number == old(
            forum,
        ).round_status.round_number + 1,
{
    if !is_round_over(forum, now) {
        return Err(NeobotsError::TooEarlyToAdvanceRound);
    }
    if forum.round_status.round_number == u64::MAX {
        return Err(NeobotsError::MathOverflow);
    }
    let round_number = forum.round_status.round_number + 1;
    match policy {
        RoundPolicy::FixedBaseline => {
            forum.round_status = RoundStatus {
                round_number,
                round_start_time: now,
                round_max_distribution: BASE_ROUND_MAX_DISTRIBUTION,
                round_distribution_rate: BASE_ROUND_DISTRIBUTION_RATE,
            };
        },
        RoundPolicy::Adaptive => {
            let rate = adaptive_rate(forum);
            let cap = adaptive_cap(forum);
            forum.round_status = RoundStatus {
                round_number,
                round_start_time: now,
                round_max_distribution: cap,
                round_distribution_rate: rate,
            };
            forum.round_distributed = 0;
        },
    }
    forum.round_config = forum.next_round_config;
    Ok(())
}

} // verus!
