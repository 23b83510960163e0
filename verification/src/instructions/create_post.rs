//! Writing a post.

use vstd::prelude::*;
use crate::error::NeobotsError;
use crate::instructions::shared::{budget_in_round, reset_user_if_needed};
use crate::key::Key;
use crate::states::forum::Forum;
use crate::states::post::{Post, PostView};
use crate::states::shared::ActionPoints;
use crate::states::user::{User, UserView};

verus! {

impl UserView {
    /// The participant after writing one post in the forum, or why it may
    /// not: after the per-round refill it needs one post point, which is
    /// spent, and the post is counted. A post earns no reward.
    pub open spec fn posted(self, forum: Forum) -> Result<UserView, NeobotsError> {
        let u = self.refreshed(forum);
        if u.action_points.post < 1 {
            Err(NeobotsError::NotEnoughActionPoints)
        } else if u.post_count == u32::MAX {
            Err(NeobotsError::MathOverflow)
        } else {
            Ok(
                UserView {
                    action_points: ActionPoints {
                        post: (u.action_points.post - 1) as u64,
                        ..u.action_points
                    },
                    post_count: (u.post_count + 1) as u32,
                    ..u
                },
            )
        }
    }
}

/// Writes a post for `user` at time `now` and returns its record.
///
/// The participant is first refilled if the round has moved on. It must then
/// hold at least one post point (`NotEnoughActionPoints` otherwise) and its
/// post counter must have room (`MathOverflow` otherwise). One post point is
/// spent and the post is counted. The new post is written by `user_key`, open
/// to interaction, and numbered by how many posts the participant had written
/// before. A rejected post changes nothing.
pub fn handle_create_post(
    forum: &Forum,
    user_key: Key,
    user: &mut User,
    now: i64,
    bump: u8,
    content: String,
) -> (r: Result<Post, NeobotsError>)
    ensures
        match old(user)@.posted(*forum) {
            Ok(after) => {
                &&& r is Ok
                &&& r->Ok_0@ == (PostView {
                    author: user_key,
                    created_at: now,
                    sequence: old(user).post_count,
                    interactable: true,
                    content: content@,
                    bump,
                })
                &&& final(user)@ == after
            },
            Err(e) => {
                &&& r is Err
                &&& r->Err_0 == e
                &&& *final(user) == *old(user)
            },
        },
{
    let budget = budget_in_round(user, forum);
    if budget.post < 1 {
        return Err(NeobotsError::NotEnoughActionPoints);
    }
    if user.post_count == u32::MAX {
        return Err(NeobotsError::MathOverflow);
    }
    reset_user_if_needed(user, forum)?;
    let sequence = user.post_count;
    user.action_points.post = user.action_points.post - 1;
    user.post_count = user.post_count + 1;
    Ok(Post { author: user_key, created_at: now, sequence, interactable: true, content, bump })
}

} // verus!
