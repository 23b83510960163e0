//! What every action shares: the per-round refill, the reward formula and the
//! reward ledger.

use vstd::prelude::*;
use crate::constants::RATIO_SCALE;
use crate::error::NeobotsError;
use crate::key::Key;
use crate::ratio::{lemma_scale_by_at_most_one, scale_by, spec_scale_by};
use crate::states::forum::Forum;
use crate::states::ledger::{RewardReason, RewardRecord};
use crate::states::shared::ActionPoints;
use crate::states::user::{User, UserView};

verus! {

impl UserView {
    /// The participant has not been refilled for the forum's running round.
    pub open spec fn is_stale(self, forum: Forum) -> bool {
        self.local_round_number < forum.round_status.round_number
    }

    /// The participant after the once-per-round refill: a stale participant
    /// gets the forum's full default budget (not an addition to what is left),
    /// empty interaction metrics and the forum's round number; any other
    /// participant stays as it is.
    pub open spec fn refreshed(self, forum: Forum) -> UserView {
        if self.is_stale(forum) {
            UserView {
                action_points: forum.round_config.default_action_points,
                interaction_metrics: Seq::empty(),
                local_round_number: forum.round_status.round_number,
                ..self
            }
        } else {
            self
        }
    }

    /// The participant after `amount` is added to the claimable balance, which
    /// stops at the largest value it can hold.
    pub open spec fn credited(self, amount: u64) -> UserView {
        UserView {
            claimable_amount: if self.claimable_amount + amount > u64::MAX {
                u64::MAX
            } else {
                (self.claimable_amount + amount) as u64
            },
            ..self
        }
    }
}

/// A refill gives a stale participant exactly the forum's default budget and
/// empty interaction metrics, whatever it held before.
pub proof fn lemma_refill_restores_budget(user: UserView, forum: Forum)
    requires
        user.is_stale(forum),
    ensures
        user.refreshed(forum).action_points == forum.round_config.default_action_points,
        user.refreshed(forum).interaction_metrics.len() == 0,
        user.refreshed(forum).local_round_number == forum.round_status.round_number,
        user.refreshed(forum).claimable_amount == user.claimable_amount,
{
}

/// A refill happens at most once per round: a second one in the same round
/// changes nothing.
pub proof fn lemma_refill_once_per_round(user: UserView, forum: Forum)
    ensures
        !user.refreshed(forum).is_stale(forum),
        user.refreshed(forum).refreshed(forum) == user.refreshed(forum),
{
}

/// The reward for an action with coefficient `k` at distribution rate `rate`:
/// `k * rate / RATIO_SCALE` rounded down, where a product beyond the range of
/// `u64` counts as `u64::MAX`.
pub open spec fn reward_amount(k: u64, rate: u64) -> u64 {
    spec_scale_by(k, rate)
}

/// An action with coefficient zero earns nothing.
pub proof fn lemma_reward_of_zero(rate: u64)
    ensures
        reward_amount(0, rate) == 0,
{
}

/// While the distribution rate is at most 1x, no reward exceeds its
/// coefficient.
pub proof fn lemma_reward_at_most_coefficient(k: u64, rate: u64)
    requires
        rate <= RATIO_SCALE,
    ensures
        reward_amount(k, rate) <= k,
{
    lemma_scale_by_at_most_one(k, rate);
}

/// Refills the participant's budget on its first use in a round.
///
/// A participant whose `local_round_number` is behind the forum's round gets
/// the forum's default action points, loses its interaction metrics and is
/// stamped with the forum's round number. Otherwise nothing changes, so a
/// second call within the same round does nothing. The claimable balance is
/// never touched.
pub fn reset_user_if_needed(user: &mut User, forum: &Forum) -> (r: Result<(), NeobotsError>)
    ensures
        r is Ok,
        final(user)@ == old(user)@.refreshed(*forum),
        !old(user)@.is_stale(*forum) ==> *final(user) == *old(user),
        old(user)@.is_stale(*forum) ==> {
            &&& final(user).action_points == forum.round_config.default_action_points
            &&& final(user).interaction_metrics@.len() == 0
            &&& final(user).local_round_number == forum.round_status.round_number
        },
        final(user).claimable_amount == old(user).claimable_amount,
        final(user).local_round_number >= old(user).local_round_number,
{
    if user.local_round_number < forum.round_status.round_number {
        user.action_points = forum.round_config.default_action_points;
        user.interaction_metrics.clear();
        user.local_round_number = forum.round_status.round_number;
    }
    Ok(())
}

/// The budget that the participant has in the forum's running round: the
/// forum's default if the participant is due a refill, else what is left.
pub fn budget_in_round(user: &User, forum: &Forum) -> (r: ActionPoints)
    ensures
        r == user@.refreshed(*forum).action_points,
{
    if user.local_round_number < forum.round_status.round_number {
        forum.round_config.default_action_points
    } else {
        user.action_points
    }
}

/// The reward for an action with coefficient `k` in the forum's running round.
pub fn calculate_reward(forum: &Forum, k: u64) -> (r: u64)
    ensures
        r == reward_amount(k, forum.round_status.round_distribution_rate),
        k == 0 ==> r == 0,
        forum.round_status.round_distribution_rate <= RATIO_SCALE ==> r <= k,
{
    let rate = forum.round_status.round_distribution_rate;
    proof {
        lemma_reward_of_zero(rate);
        if rate <= RATIO_SCALE {
            lemma_reward_at_most_coefficient(k, rate);
        }
    }
    scale_by(k, rate)
}

/// Credits `reward` to the participant and writes the credit to the audit
/// trail.
///
/// The claimable balance grows by `reward`, stopping at `u64::MAX`. The
/// record carries the participant's record key, the full `reward` and the
/// reason. A reward of zero is credited and recorded like any other. No
/// budget is checked here.
pub fn distribute_reward(
    user_key: Key,
    user: &mut User,
    reward: u64,
    reason: RewardReason,
    log: &mut Vec<RewardRecord>,
) -> (r: Result<(), NeobotsError>)
    ensures
        r is Ok,
        final(user)@ == old(user)@.credited(reward),
        final(log)@ == old(log)@.push((RewardRecord { user: user_key, amount: reward, reason })),
{
    user.claimable_amount = user.claimable_amount.saturating_add(reward);
    log.push(RewardRecord { user: user_key, amount: reward, reason });
    Ok(())
}

} // verus!
