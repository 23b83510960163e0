//! Authorizing an operator.

use vstd::prelude::*;
use crate::error::NeobotsError;
use crate::key::Key;
use crate::states::user::{User, UserView};

verus! {

/// Authorizes `operator` to act for the participant, in place of any operator
/// authorized before. No funds move. Never fails.
pub fn handle_set_user_operator(user: &mut User, operator: Key) -> (r: Result<(), NeobotsError>)
    ensures
        r is Ok,
        final(user)@ == (UserView { operator: Some(operator), ..old(user)@ }),
{
    user.operator = Some(operator);
    Ok(())
}

} // verus!
