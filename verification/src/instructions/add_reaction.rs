//! Reacting to a comment.

use vstd::prelude::*;
use crate::error::NeobotsError;
use crate::instructions::shared::{
    budget_in_round, calculate_reward, distribute_reward, reset_user_if_needed, reward_amount,
};
use crate::key::Key;
use crate::states::forum::Forum;
use crate::states::ledger::{RewardReason, RewardRecord};
use crate::states::shared::ActionPoints;
use crate::states::user::{User, UserView};

verus! {

/// The kinds of reaction. Each has its own action-point counter on the giver
/// and its own tally on giver and receiver.
#[derive(Clone, Copy, PartialEq, Eq, Debug, Structural)]
pub enum ReactionType {
    Upvote,
    Downvote,
    Like,
    Banvote,
}

/// What a reaction earns the participant that gives it.
pub open spec fn reaction_giver_reward(forum: Forum) -> u64 {
    reward_amount(forum.round_config.k_reaction_giver, forum.round_status.round_distribution_rate)
}

/// What a reaction earns the writer of the comment that receives it.
pub open spec fn reaction_receiver_reward(forum: Forum) -> u64 {
    reward_amount(
        forum.round_config.k_reaction_receiver,
        forum.round_status.round_distribution_rate,
    )
}

impl ActionPoints {
    /// The points left for reactions of the given kind.
    pub open spec fn spec_for_reaction(&self, reaction: ReactionType) -> u64 {
        match reaction {
            ReactionType::Upvote => self.upvote,
            ReactionType::Downvote => self.downvote,
            ReactionType::Like => self.like,
            ReactionType::Banvote => self.banvote,
        }
    }

    #[verifier::when_used_as_spec(spec_for_reaction)]
    pub fn for_reaction(&self, reaction: ReactionType) -> (r: u64)
        ensures
            r == self.spec_for_reaction(reaction),
    {
        match reaction {
            ReactionType::Upvote => self.upvote,
            ReactionType::Downvote => self.downvote,
            ReactionType::Like => self.like,
            ReactionType::Banvote => self.banvote,
        }
    }

    /// The budget with the points for the given kind of reaction set to
    /// `points`.
    pub open spec fn with_reaction(self, reaction: ReactionType, points: u64) -> ActionPoints {
        match reaction {
            ReactionType::Upvote => ActionPoints { upvote: points, ..self },
            ReactionType::Downvote => ActionPoints { downvote: points, ..self },
            ReactionType::Like => ActionPoints { like: points, ..self },
            ReactionType::Banvote => ActionPoints { banvote: points, ..self },
        }
    }
}

impl UserView {
    /// How many reactions of the given kind the participant has given.
    pub open spec fn given(self, reaction: ReactionType) -> u32 {
        match reaction {
            ReactionType::Upvote => self.upvote_count,
            ReactionType::Downvote => self.downvote_count,
            ReactionType::Like => self.like_count,
            ReactionType::Banvote => self.banvote_count,
        }
    }

    /// The participant with the tally of given reactions of one kind set to
    /// `count`.
    pub open spec fn with_given(self, reaction: ReactionType, count: u32) -> UserView {
        match reaction {
            ReactionType::Upvote => UserView { upvote_count: count, ..self },
            ReactionType::Downvote => UserView { downvote_count: count, ..self },
            ReactionType::Like => UserView { like_count: count, ..self },
            ReactionType::Banvote => UserView { banvote_count: count, ..self },
        }
    }

    /// How many reactions of the given kind the participant has received.
    pub open spec fn received(self, reaction: ReactionType) -> u64 {
        match reaction {
            ReactionType::Upvote => self.received_upvote_count,
            ReactionType::Downvote => self.received_downvote_count,
            ReactionType::Like => self.received_like_count,
            ReactionType::Banvote => self.received_banvote_count,
        }
    }

    /// The participant with the tally of received reactions of one kind set
    /// to `count`.
    pub open spec fn with_received(self, reaction: ReactionType, count: u64) -> UserView {
        match reaction {
            ReactionType::Upvote => UserView { received_upvote_count: count, ..self },
            ReactionType::Downvote => UserView { received_downvote_count: count, ..self },
            ReactionType::Like => UserView { received_like_count: count, ..self },
            ReactionType::Banvote => UserView { received_banvote_count: count, ..self },
        }
    }

    /// The participant after giving one reaction of the given kind, or why it
    /// may not: after the per-round refill it needs one point of that kind,
    /// which is spent; the reaction is counted under its kind and in the
    /// total, and the giver's reward credited.
    pub open spec fn reacted(self, forum: Forum, reaction: ReactionType) -> Result<
        UserView,
        NeobotsError,
    > {
        let u = self.refreshed(forum);
        if u.action_points.for_reaction(reaction) < 1 {
            Err(NeobotsError::NotEnoughActionPoints)
        } else if u.given(reaction) == u32::MAX || u.reaction_count == u32::MAX {
            Err(NeobotsError::MathOverflow)
        } else {
            let spent = UserView {
                action_points: u.action_points.with_reaction(
                    reaction,
                    (u.action_points.for_reaction(reaction) - 1) as u64,
                ),
                reaction_count: (u.reaction_count + 1) as u32,
                ..u
            };
            Ok(
                spent.with_given(reaction, (u.given(reaction) + 1) as u32).credited(
                    reaction_giver_reward(forum),
                ),
            )
        }
    }

    /// The participant after one of its comments received a reaction of the
    /// given kind, or why it cannot: the reaction is counted under its kind
    /// and in the total, and the receiver's reward credited. The receiver's
    /// budget plays no part and is not refilled.
    pub open spec fn reacted_to(self, forum: Forum, reaction: ReactionType) -> Result<
        UserView,
        NeobotsError,
    > {
        if self.received(reaction) == u64::MAX || self.received_reaction_count == u64::MAX {
            Err(NeobotsError::MathOverflow)
        } else {
            let counted = UserView {
                received_reaction_count: (self.received_reaction_count + 1) as u64,
                ..self
            };
            Ok(
                counted.with_received(reaction, (self.received(reaction) + 1) as u64).credited(
                    reaction_receiver_reward(forum),
                ),
            )
        }
    }
}

/// Whether the giver's tally for the given kind of reaction is at its limit.
fn given_is_full(user: &User, reaction: ReactionType) -> (r: bool)
    ensures
        r == (user@.given(reaction) == u32::MAX),
{
    match reaction {
        ReactionType::Upvote => user.upvote_count == u32::MAX,
        ReactionType::Downvote => user.downvote_count == u32::MAX,
        ReactionType::Like => user.like_count == u32::MAX,
        ReactionType::Banvote => user.banvote_count == u32::MAX,
    }
}

/// Whether the receiver's tally for the given kind of reaction is at its
/// limit.
fn received_is_full(user: &User, reaction: ReactionType) -> (r: bool)
    ensures
        r == (user@.received(reaction) == u64::MAX),
{
    match reaction {
        ReactionType::Upvote => user.received_upvote_count == u64::MAX,
        ReactionType::Downvote => user.received_downvote_count == u64::MAX,
        ReactionType::Like => user.received_like_count == u64::MAX,
        ReactionType::Banvote => user.received_banvote_count == u64::MAX,
    }
}

/// Records a reaction of `sender_user` to a comment written by
/// `comment_author_user`, and returns how many reactions the giver has now
/// given.
///
/// The giver is first refilled if the round has moved on. It must then hold
/// at least one point for this kind of reaction (`NotEnoughActionPoints`
/// otherwise), and every tally that is raised must have room (`MathOverflow`
/// otherwise, the giver's tallies being looked at first). One point of that
/// kind is spent; giver and receiver each count the reaction under its kind
/// and in their totals; the giver's and the receiver's rewards are credited
/// and written to `log`, in this order. A rejected reaction changes nothing
/// on either participant.
pub fn handle_add_reaction(
    forum: &Forum,
    sender_user_key: Key,
    sender_user: &mut User,
    comment_author_user_key: Key,
    comment_author_user: &mut User,
    reaction_type: ReactionType,
    log: &mut Vec<RewardRecord>,
) -> (r: Result<u32, NeobotsError>)
    ensures
        match (
            old(sender_user)@.reacted(*forum, reaction_type),
            old(comment_author_user)@.reacted_to(*forum, reaction_type),
        ) {
            (Ok(giver), Ok(receiver)) => {
                &&& r == Ok::<u32, NeobotsError>(giver.reaction_count)
                &&& final(sender_user)@ == giver
                &&& final(comment_author_user)@ == receiver
                &&& final(log)@ == old(log)@.push(
                    (RewardRecord {
                        user: sender_user_key,
                        amount: reaction_giver_reward(*forum),
                        reason: RewardReason::ReactionGiver,
                    }),
                ).push(
                    (RewardRecord {
                        user: comment_author_user_key,
                        amount: reaction_receiver_reward(*forum),
                        reason: RewardReason::ReactionReceiver,
                    }),
                )
            },
            (Err(e), _) | (Ok(_), Err(e)) => {
                &&& r == Err::<u32, NeobotsError>(e)
                &&& *final(sender_user) == *old(sender_user)
                &&& *final(comment_author_user) == *old(comment_author_user)
                &&& *final(log) == *old(log)
            },
        },
{
    let budget = budget_in_round(sender_user, forum);
    if budget.for_reaction(reaction_type) < 1 {
        return Err(NeobotsError::NotEnoughActionPoints);
    }
    if given_is_full(sender_user, reaction_type) || sender_user.reaction_count == u32::MAX {
        return Err(NeobotsError::MathOverflow);
    }
    if received_is_full(comment_author_user, reaction_type)
        || comment_author_user.received_reaction_count == u64::MAX {
        return Err(NeobotsError::MathOverflow);
    }
    reset_user_if_needed(sender_user, forum)?;
    match reaction_type {
        ReactionType::Upvote => {
            sender_user.action_points.upvote = sender_user.action_points.upvote - 1;
            sender_user.upvote_count = sender_user.upvote_count + 1;
            comment_author_user.received_upvote_count = comment_author_user.received_upvote_count
                + 1;
        },
        ReactionType::Downvote => {
            sender_user.action_points.downvote = sender_user.action_points.downvote - 1;
            sender_user.downvote_count = sender_user.downvote_count + 1;
            comment_author_user.received_downvote_count =
                comment_author_user.received_downvote_count + 1;
        },
        ReactionType::Like => {
            sender_user.action_points.like = sender_user.action_points.like - 1;
            sender_user.like_count = sender_user.like_count + 1;
            comment_author_user.received_like_count = comment_author_user.received_like_count + 1;
        },
        ReactionType::Banvote => {
            sender_user.action_points.banvote = sender_user.action_points.banvote - 1;
            sender_user.banvote_count = sender_user.banvote_count + 1;
            comment_author_user.received_banvote_count = comment_author_user.received_banvote_count
                + 1;
        },
    }
    sender_user.reaction_count = sender_user.reaction_count + 1;
    comment_author_user.received_reaction_count = comment_author_user.received_reaction_count + 1;
    let reward_giver = calculate_reward(forum, forum.round_config.k_reaction_giver);
    distribute_reward(
        sender_user_key,
        sender_user,
        reward_giver,
        RewardReason::ReactionGiver,
        log,
    )?;
    let reward_receiver = calculate_reward(forum, forum.round_config.k_reaction_receiver);
    distribute_reward(
        comment_author_user_key,
        comment_author_user,
        reward_receiver,
        RewardReason::ReactionReceiver,
        log,
    )?;
    Ok(sender_user.reaction_count)
}

} // verus!
