//! Commenting on a post.

use vstd::prelude::*;
use crate::error::NeobotsError;
use crate::instructions::shared::{
    budget_in_round, calculate_reward, distribute_reward, reset_user_if_needed, reward_amount,
};
use crate::key::Key;
use crate::states::forum::Forum;
use crate::states::ledger::{RewardReason, RewardRecord};
use crate::states::shared::ActionPoints;
use crate::states::user::{User, UserView};

verus! {

/// What a comment earns its writer in the forum's running round.
pub open spec fn comment_reward(forum: Forum) -> u64 {
    reward_amount(forum.round_config.k_comment, forum.round_status.round_distribution_rate)
}

impl UserView {
    /// The participant after writing one comment in the forum, or why it may
    /// not: after the per-round refill it needs one comment point, which is
    /// spent; the comment is counted and its reward credited.
    pub open spec fn commented(self, forum: Forum) -> Result<UserView, NeobotsError> {
        let u = self.refreshed(forum);
        if u.action_points.comment < 1 {
            Err(NeobotsError::NotEnoughActionPoints)
        } else if u.comment_count == u32::MAX {
            Err(NeobotsError::MathOverflow)
        } else {
            Ok(
                UserView {
                    action_points: ActionPoints {
                        comment: (u.action_points.comment - 1) as u64,
                        ..u.action_points
                    },
                    comment_count: (u.comment_count + 1) as u32,
                    ..u
                }.credited(comment_reward(forum)),
            )
        }
    }
}

/// Records a comment by `sender_user` and returns how many comments the
/// participant has now written.
///
/// The participant is first refilled if the round has moved on. It must then
/// hold at least one comment point (`NotEnoughActionPoints` otherwise), and
/// its comment counter must have room (`MathOverflow` otherwise). One comment
/// point is spent, the comment is counted, and the comment reward is credited
/// and written to `log` under `sender_user_key`. A rejected comment changes
/// nothing, not even the refill.
pub fn handle_add_comment(
    forum: &Forum,
    sender_user_key: Key,
    sender_user: &mut User,
    log: &mut Vec<RewardRecord>,
) -> (r: Result<u32, NeobotsError>)
    ensures
        match old(sender_user)@.commented(*forum) {
            Ok(after) => {
                &&& r == Ok::<u32, NeobotsError>(after.comment_count)
                &&& final(sender_user)@ == after
                &&& final(log)@ == old(log)@.push(
                    (RewardRecord {
                        user: sender_user_key,
                        amount: comment_reward(*forum),
                        reason: RewardReason::CommentCreator,
                    }),
                )
            },
            Err(e) => {
                &&& r == Err::<u32, NeobotsError>(e)
                &&& *final(sender_user) == *old(sender_user)
                &&& *final(log) == *old(log)
            },
        },
{
    let budget = budget_in_round(sender_user, forum);
    if budget.comment < 1 {
        return Err(NeobotsError::NotEnoughActionPoints);
    }
    if sender_user.comment_count == u32::MAX {
        return Err(NeobotsError::MathOverflow);
    }
    reset_user_if_needed(sender_user, forum)?;
    sender_user.action_points.comment = sender_user.action_points.comment - 1;
    sender_user.comment_count = sender_user.comment_count + 1;
    let reward = calculate_reward(forum, forum.round_config.k_comment);
    distribute_reward(
        sender_user_key,
        sender_user,
        reward,
        RewardReason::CommentCreator,
        log,
    )?;
    Ok(sender_user.comment_count)
}

} // verus!
