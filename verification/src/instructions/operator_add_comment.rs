//! Commenting through an operator.

use vstd::prelude::*;
use crate::error::NeobotsError;
use crate::instructions::add_comment::{comment_reward, handle_add_comment};
use crate::instructions::shared::budget_in_round;
use crate::key::Key;
use crate::states::forum::Forum;
use crate::states::ledger::{RewardReason, RewardRecord};
use crate::states::operator::Operator;
use crate::states::operatorsession::OperatorSession;
use crate::states::user::{User, UserView};

verus! {

impl OperatorSession {
    /// The session after the operator took `price` for one action, or why it
    /// cannot: the price moves from the participant's side to the operator's,
    /// so the two sides together hold what they held before.
    pub open spec fn charged(self, price: u64) -> Result<OperatorSession, NeobotsError> {
        if self.amount_for_user < price {
            Err(NeobotsError::InsufficientFunds)
        } else if self.amount_for_operator + price > u64::MAX {
            Err(NeobotsError::MathOverflow)
        } else {
            Ok(
                OperatorSession {
                    amount_for_user: (self.amount_for_user - price) as u64,
                    amount_for_operator: (self.amount_for_operator + price) as u64,
                    ..self
                },
            )
        }
    }
}

/// `sender` is the operator of this participant's session: the session was
/// opened for the participant `user_key` and is bound to `sender`, the
/// participant has authorized `sender`, and the operator record is the one
/// that `sender` controls.
pub open spec fn operator_is_bound(
    user_key: Key,
    user: UserView,
    sender: Key,
    operator: Operator,
    session: OperatorSession,
) -> bool {
    &&& session.user == user_key
    &&& session.operator == sender
    &&& user.operator == Some(sender)
    &&& operator.authority == sender
}

/// Participant and session after `sender` wrote one comment for the
/// participant, or why it may not. In this order: `sender` must be the bound
/// operator; the participant, once refilled, must hold a comment point; the
/// session must cover the operator's price per comment; and the fee and the
/// comment must fit their counters.
pub open spec fn operator_commented(
    user_key: Key,
    user: UserView,
    forum: Forum,
    sender: Key,
    operator: Operator,
    session: OperatorSession,
) -> Result<(UserView, OperatorSession), NeobotsError> {
    if !operator_is_bound(user_key, user, sender, operator, session) {
        Err(NeobotsError::OperatorKeyMismatch)
    } else if user.refreshed(forum).action_points.comment < 1 {
        Err(NeobotsError::NotEnoughActionPoints)
    } else {
        match session.charged(operator.price.price_per_comment) {
            Err(e) => Err(e),
            Ok(paid) => match user.commented(forum) {
                Err(e) => Err(e),
                Ok(after) => Ok((after, paid)),
            },
        }
    }
}

/// Whether the participant has authorized exactly this operator.
fn has_operator(user: &User, operator: &Key) -> (r: bool)
    ensures
        r == (user.operator == Some(*operator)),
{
    match &user.operator {
        Some(k) => *k == *operator,
        None => false,
    }
}

/// Records a comment that the operator `sender` writes for `sender_user`,
/// paid from the participant's session, and returns how many comments the
/// participant has now written.
///
/// The caller `sender` must be the bound operator: the session belongs to
/// the participant `sender_user_key` and is bound to `sender`, the
/// participant has authorized `sender`, and `operator` is the record that
/// `sender` controls (`OperatorKeyMismatch` otherwise). The participant,
/// refilled if the round has moved on, must hold a comment point
/// (`NotEnoughActionPoints`). The session's `amount_for_user` must cover the
/// operator's price per comment (`InsufficientFunds`). The price then moves
/// from `amount_for_user` to `amount_for_operator`, and the comment is
/// recorded exactly as one of the participant's own: a point is spent, the
/// comment counted, the reward credited to the participant and written to
/// `log`. `MathOverflow` is returned if the fee or the comment does not fit
/// its counter. A rejected comment changes neither participant nor session.
pub fn handle_operator_add_comment(
    forum: &Forum,
    sender: Key,
    sender_user_key: Key,
    sender_user: &mut User,
    operator: &Operator,
    operator_session: &mut OperatorSession,
    log: &mut Vec<RewardRecord>,
) -> (r: Result<u32, NeobotsError>)
    ensures
        match operator_commented(
            sender_user_key,
            old(sender_user)@,
            *forum,
            sender,
            *operator,
            *old(operator_session),
        ) {
            Ok((after, paid)) => {
                &&& r == Ok::<u32, NeobotsError>(after.comment_count)
                &&& final(sender_user)@ == after
                &&& *final(operator_session) == paid
                &&& final(log)@ == old(log)@.push(
                    (RewardRecord {
                        user: sender_user_key,
                        amount: comment_reward(*forum),
                        reason: RewardReason::CommentCreator,
                    }),
                )
            },
            Err(e) => {
                &&& r == Err::<u32, NeobotsError>(e)
                &&& *final(sender_user) == *old(sender_user)
                &&& *final(operator_session) == *old(operator_session)
                &&& *final(log) == *old(log)
            },
        },
{
    if !(operator_session.user == sender_user_key && operator_session.operator == sender
        && has_operator(sender_user, &sender) && operator.authority == sender) {
        return Err(NeobotsError::OperatorKeyMismatch);
    }
    let budget = budget_in_round(sender_user, forum);
    if budget.comment < 1 {
        return Err(NeobotsError::NotEnoughActionPoints);
    }
    let price = operator.price.price_per_comment;
    if operator_session.amount_for_user < price {
        return Err(NeobotsError::InsufficientFunds);
    }
    let fee_total = match operator_session.amount_for_operator.checked_add(price) {
        Some(t) => t,
        None => {
            return Err(NeobotsError::MathOverflow);
        },
    };
    let count = handle_add_comment(forum, sender_user_key, sender_user, log)?;
    operator_session.amount_for_user = operator_session.amount_for_user - price;
    operator_session.amount_for_operator = fee_total;
    Ok(count)
}

} // verus!
