//! Refilling a participant's budget on request.

use vstd::prelude::*;
use crate::error::NeobotsError;
use crate::instructions::shared::reset_user_if_needed;
use crate::states::forum::Forum;
use crate::states::shared::ActionPoints;
use crate::states::user::User;

verus! {

/// Refills the participant if the round has moved on, and returns the budget
/// that it holds afterwards. Never fails.
pub fn handle_reset_user_action_points(user: &mut User, forum: &Forum) -> (r: Result<
    ActionPoints,
    NeobotsError,
>)
    ensures
        r == Ok::<ActionPoints, NeobotsError>(old(user)@.refreshed(*forum).action_points),
        final(user)@ == old(user)@.refreshed(*forum),
{
    reset_user_if_needed(user, forum)?;
    Ok(user.action_points)
}

} // verus!
