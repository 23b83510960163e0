//! Withdrawing an operator's authorization.

use vstd::prelude::*;
use crate::error::NeobotsError;
use crate::states::user::{User, UserView};

verus! {

/// Leaves the participant without an operator. No funds move. Never fails.
pub fn handle_unset_user_operator(user: &mut User) -> (r: Result<(), NeobotsError>)
    ensures
        r is Ok,
        final(user)@ == (UserView { operator: None, ..old(user)@ }),
{
    user.operator = None;
    Ok(())
}

} // verus!
