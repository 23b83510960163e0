//! Histories of one participant: what holds of its record after any sequence
//! of operations.

use vstd::prelude::*;
use crate::instructions::add_comment::comment_reward;
use crate::instructions::add_reaction::{
    reaction_giver_reward, reaction_receiver_reward, ReactionType,
};
use crate::instructions::claim::claimed;
use crate::instructions::operator_add_comment::operator_commented;
use crate::key::Key;
use crate::states::forum::Forum;
use crate::states::operator::Operator;
use crate::states::operatorsession::OperatorSession;
use crate::states::user::UserView;

verus! {

/// One operation on a participant, with everything else that it reads. An
/// operation that is rejected leaves the participant as it was.
pub enum UserStep {
    /// `reset_user_if_needed`, or `handle_reset_user_action_points`.
    Refill { forum: Forum },
    /// `handle_create_post`.
    Post { forum: Forum },
    /// `handle_add_comment`.
    Comment { forum: Forum },
    /// `handle_add_reaction`, for the giver, where the receiver's tallies
    /// have room.
    React { forum: Forum, reaction: ReactionType },
    /// `handle_add_reaction`, for the receiver, where the giver may react.
    ReceiveReaction { forum: Forum, reaction: ReactionType },
    /// `handle_operator_add_comment`.
    OperatorComment {
        user_key: Key,
        forum: Forum,
        sender: Key,
        operator: Operator,
        session: OperatorSession,
    },
    /// `distribute_reward`.
    Credit { amount: u64 },
    /// `handle_claim`.
    Claim { forum: Forum, enforce_cap: bool },
    /// `handle_set_user_operator`.
    SetOperator { operator_key: Key },
    /// `handle_unset_user_operator`.
    UnsetOperator,
}

/// The participant after one operation.
pub open spec fn user_after(u: UserView, step: UserStep) -> UserView {
    match step {
        UserStep::Refill { forum } => u.refreshed(forum),
        UserStep::Post { forum } => match u.posted(forum) {
            Ok(after) => after,
            Err(_) => u,
        },
        UserStep::Comment { forum } => match u.commented(forum) {
            Ok(after) => after,
            Err(_) => u,
        },
        UserStep::React { forum, reaction } => match u.reacted(forum, reaction) {
            Ok(after) => after,
            Err(_) => u,
        },
        UserStep::ReceiveReaction { forum, reaction } => match u.reacted_to(forum, reaction) {
            Ok(after) => after,
            Err(_) => u,
        },
        UserStep::OperatorComment { user_key, forum, sender, operator, session } => {
            match operator_commented(user_key, u, forum, sender, operator, session) {
                Ok((after, _)) => after,
                Err(_) => u,
            }
        },
        UserStep::Credit { amount } => u.credited(amount),
        UserStep::Claim { forum, enforce_cap } => match claimed(u, forum, enforce_cap) {
            Ok((after, _, _)) => after,
            Err(_) => u,
        },
        UserStep::SetOperator { operator_key } => UserView { operator: Some(operator_key), ..u },
        UserStep::UnsetOperator => UserView { operator: None, ..u },
    }
}

/// What one operation credits to the participant: the reward that is written
/// to the audit trail, or nothing where the operation is rejected.
pub open spec fn credited_by(u: UserView, step: UserStep) -> int {
    match step {
        UserStep::Comment { forum } => if u.commented(forum) is Ok {
            comment_reward(forum) as int
        } else {
            0
        },
        UserStep::React { forum, reaction } => if u.reacted(forum, reaction) is Ok {
            reaction_giver_reward(forum) as int
        } else {
            0
        },
        UserStep::ReceiveReaction { forum, reaction } => if u.reacted_to(forum, reaction) is Ok {
            reaction_receiver_reward(forum) as int
        } else {
            0
        },
        UserStep::OperatorComment { user_key, forum, sender, operator, session } => {
            if operator_commented(user_key, u, forum, sender, operator, session) is Ok {
                comment_reward(forum) as int
            } else {
                0
            }
        },
        UserStep::Credit { amount } => amount as int,
        _ => 0,
    }
}

/// What one operation pays out to the participant: the amount of a claim that
/// is settled, and nothing else.
pub open spec fn paid_by(u: UserView, step: UserStep) -> int {
    match step {
        UserStep::Claim { forum, enforce_cap } => match claimed(u, forum, enforce_cap) {
            Ok((_, _, amount)) => amount as int,
            Err(_) => 0,
        },
        _ => 0,
    }
}

/// The participant after a sequence of operations, in order.
pub open spec fn user_after_all(u: UserView, steps: Seq<UserStep>) -> UserView
    decreases steps.len(),
{
    if steps.len() == 0 {
        u
    } else {
        user_after(user_after_all(u, steps.drop_last()), steps.last())
    }
}

/// Everything that a sequence of operations credits to the participant.
pub open spec fn total_credited(u: UserView, steps: Seq<UserStep>) -> int
    decreases steps.len(),
{
    if steps.len() == 0 {
        0
    } else {
        total_credited(u, steps.drop_last()) + credited_by(
            user_after_all(u, steps.drop_last()),
            steps.last(),
        )
    }
}

/// Everything that a sequence of operations pays out to the participant.
pub open spec fn total_paid(u: UserView, steps: Seq<UserStep>) -> int
    decreases steps.len(),
{
    if steps.len() == 0 {
        0
    } else {
        total_paid(u, steps.drop_last()) + paid_by(
            user_after_all(u, steps.drop_last()),
            steps.last(),
        )
    }
}

/// No credit in the sequence meets a claimable balance that is too full to
/// take all of it.
pub open spec fn every_credit_fits(u: UserView, steps: Seq<UserStep>) -> bool
    decreases steps.len(),
{
    if steps.len() == 0 {
        true
    } else {
        &&& every_credit_fits(u, steps.drop_last())
        &&& user_after_all(u, steps.drop_last()).claimable_amount + credited_by(
            user_after_all(u, steps.drop_last()),
            steps.last(),
        ) <= u64::MAX
    }
}

/// No operation lowers a participant's round stamp.
pub proof fn lemma_round_stamp_kept(u: UserView, step: UserStep)
    ensures
        user_after(u, step).local_round_number >= u.local_round_number,
{
}

/// A participant's `local_round_number` never decreases, whatever operations
/// are applied to it and in whatever order: at any two points of a history,
/// the later stamp is at least the earlier one.
pub proof fn lemma_round_stamp_never_decreases(
    u: UserView,
    steps: Seq<UserStep>,
    earlier: int,
    later: int,
)
    requires
        0 <= earlier <= later <= steps.len(),
    ensures
        user_after_all(u, steps.take(earlier)).local_round_number <= user_after_all(
            u,
            steps.take(later),
        ).local_round_number,
    decreases later - earlier,
{
    if earlier < later {
        lemma_round_stamp_never_decreases(u, steps, earlier, later - 1);
        assert(steps.take(later).drop_last() =~= steps.take(later - 1));
        lemma_round_stamp_kept(
            user_after_all(u, steps.take(later - 1)),
            steps.take(later).last(),
        );
    }
}

/// The participant's round stamp is not ahead of the forum's round.
pub open spec fn in_step(u: UserView, forum: Forum) -> bool {
    u.local_round_number <= forum.round_status.round_number
}

/// The operation, if it reads a forum, reads `forum`.
pub open spec fn reads_forum(step: UserStep, forum: Forum) -> bool {
    match step {
        UserStep::Refill { forum: f } => f == forum,
        UserStep::Post { forum: f } => f == forum,
        UserStep::Comment { forum: f } => f == forum,
        UserStep::React { forum: f, .. } => f == forum,
        UserStep::ReceiveReaction { forum: f, .. } => f == forum,
        UserStep::OperatorComment { forum: f, .. } => f == forum,
        UserStep::Claim { forum: f, .. } => f == forum,
        _ => true,
    }
}

/// A participant whose stamp is not ahead of its forum's round stays so under
/// every operation in that forum, and it stays so when the forum's round
/// number grows.
pub proof fn lemma_stays_in_step(u: UserView, forum: Forum, later: Forum, step: UserStep)
    requires
        in_step(u, forum),
        reads_forum(step, forum),
        forum.round_status.round_number <= later.round_status.round_number,
    ensures
        in_step(user_after(u, step), forum),
        in_step(user_after(u, step), later),
{
}

/// One operation changes the claimable balance by what it credits less what
/// it pays out, as long as the credit fits.
pub proof fn lemma_step_conserves(u: UserView, step: UserStep)
    requires
        u.claimable_amount + credited_by(u, step) <= u64::MAX,
    ensures
        user_after(u, step).claimable_amount + paid_by(u, step) == u.claimable_amount
            + credited_by(u, step),
{
}

/// Rewards are conserved: after any sequence of operations, what was paid out
/// to the participant and what is still claimable add up to what was
/// claimable at the start and what was credited since, as long as every
/// credit fits the balance.
pub proof fn lemma_claims_conserved(u: UserView, steps: Seq<UserStep>)
    requires
        every_credit_fits(u, steps),
    ensures
        total_paid(u, steps) + user_after_all(u, steps).claimable_amount == u.claimable_amount
            + total_credited(u, steps),
    decreases steps.len(),
{
    if steps.len() > 0 {
        lemma_claims_conserved(u, steps.drop_last());
        lemma_step_conserves(user_after_all(u, steps.drop_last()), steps.last());
    }
}

/// One participant with the operations that were applied to it.
pub struct Participation {
    /// The participant before the first operation.
    pub start: UserView,
    pub steps: Seq<UserStep>,
}

/// What all the participants could claim before their first operations.
pub open spec fn sum_of_starting_balances(all: Seq<Participation>) -> int
    decreases all.len(),
{
    if all.len() == 0 {
        0
    } else {
        sum_of_starting_balances(all.drop_last()) + all.last().start.claimable_amount
    }
}

/// What was credited to all the participants.
pub open spec fn sum_of_credits(all: Seq<Participation>) -> int
    decreases all.len(),
{
    if all.len() == 0 {
        0
    } else {
        sum_of_credits(all.drop_last()) + total_credited(all.last().start, all.last().steps)
    }
}

/// What was paid out to all the participants.
pub open spec fn sum_of_payouts(all: Seq<Participation>) -> int
    decreases all.len(),
{
    if all.len() == 0 {
        0
    } else {
        sum_of_payouts(all.drop_last()) + total_paid(all.last().start, all.last().steps)
    }
}

/// What all the participants can still claim after their operations.
pub open spec fn sum_of_remaining_balances(all: Seq<Participation>) -> int
    decreases all.len(),
{
    if all.len() == 0 {
        0
    } else {
        sum_of_remaining_balances(all.drop_last()) + user_after_all(
            all.last().start,
            all.last().steps,
        ).claimable_amount
    }
}

/// Every credit to every participant fits its balance.
pub open spec fn all_credits_fit(all: Seq<Participation>) -> bool {
    forall|i: int| 0 <= i < all.len() ==> every_credit_fits((#[trigger] all[i]).start, all[i].steps)
}

/// Over all participants together, what was paid out is what was credited
/// (and claimable at the start, which is nothing for a new participant) less
/// what remains claimable, as long as every credit fits its balance.
pub proof fn lemma_claims_conserved_overall(all: Seq<Participation>)
    requires
        all_credits_fit(all),
    ensures
        sum_of_payouts(all) == sum_of_starting_balances(all) + sum_of_credits(all)
            - sum_of_remaining_balances(all),
    decreases all.len(),
{
    if all.len() > 0 {
        let init = all.drop_last();
        assert forall|i: int| 0 <= i < init.len() implies every_credit_fits(
            (#[trigger] init[i]).start,
            init[i].steps,
        ) by {
            assert(init[i] == all[i]);
        }
        lemma_claims_conserved_overall(init);
        assert(all.last() == all[all.len() - 1]);
        lemma_claims_conserved(all.last().start, all.last().steps);
    }
}

/// A participant is never paid more than it had and was credited.
pub proof fn lemma_never_overpaid(u: UserView, steps: Seq<UserStep>)
    ensures
        total_paid(u, steps) + user_after_all(u, steps).claimable_amount <= u.claimable_amount
            + total_credited(u, steps),
    decreases steps.len(),
{
    if steps.len() > 0 {
        lemma_never_overpaid(u, steps.drop_last());
    }
}

/// No operation lets the interaction metrics outgrow their bound.
pub proof fn lemma_metrics_stay_bounded(u: UserView, steps: Seq<UserStep>)
    requires
        u.wf(),
    ensures
        user_after_all(u, steps).wf(),
    decreases steps.len(),
{
    if steps.len() > 0 {
        lemma_metrics_stay_bounded(u, steps.drop_last());
    }
}

} // verus!
