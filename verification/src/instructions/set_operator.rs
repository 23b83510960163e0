//! Binding a session to another operator.

use vstd::prelude::*;
use crate::error::NeobotsError;
use crate::key::Key;
use crate::states::operatorsession::OperatorSession;

verus! {

/// Binds the session to `operator`, in place of the operator it was bound to.
/// No balance moves. Never fails.
pub fn handle_set_operator(operator_session: &mut OperatorSession, operator: Key) -> (r: Result<
    (),
    NeobotsError,
>)
    ensures
        r is Ok,
        *final(operator_session) == (OperatorSession { operator, ..*old(operator_session) }),
{
    operator_session.operator = operator;
    Ok(())
}

} // verus!
