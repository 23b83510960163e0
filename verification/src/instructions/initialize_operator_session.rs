//! Opening the sub-ledger between a participant and an operator.

use vstd::prelude::*;
use crate::error::NeobotsError;
use crate::key::Key;
use crate::states::operatorsession::OperatorSession;

verus! {

impl OperatorSession {
    /// A session that is either open or holds nothing. Every operation keeps
    /// a session so.
    pub open spec fn wf(&self) -> bool {
        !self.is_active() ==> self.amount_for_user == 0 && self.amount_for_operator == 0
    }

    /// The session after it was opened for a participant, or why it cannot
    /// be: an open session is not opened again.
    pub open spec fn opened(self, user_key: Key, operator: Key, vault: Key, bump: u8) -> Result<
        OperatorSession,
        NeobotsError,
    > {
        if self.is_active() {
            Err(NeobotsError::OperatorSessionAlreadyInitialized)
        } else {
            Ok(
                OperatorSession {
                    user: user_key,
                    operator,
                    vault,
                    amount_for_user: 0,
                    amount_for_operator: 0,
                    bump,
                },
            )
        }
    }
}

/// Opens the session for the participant record `user_key`, bound to
/// `operator`, with deposits held in `vault`.
///
/// Fails with `OperatorSessionAlreadyInitialized` if the session is open
/// already, and then changes nothing. Otherwise both balances start at zero.
pub fn handle_initialize_operator_session(
    operator_session: &mut OperatorSession,
    user_key: Key,
    operator: Key,
    vault: Key,
    bump: u8,
) -> (r: Result<(), NeobotsError>)
    ensures
        match old(operator_session).opened(user_key, operator, vault, bump) {
            Ok(after) => r is Ok && *final(operator_session) == after,
            Err(e) => r == Err::<(), NeobotsError>(e) && *final(operator_session) == *old(
                operator_session,
            ),
        },
{
    if operator_session.is_active() {
        return Err(NeobotsError::OperatorSessionAlreadyInitialized);
    }
    operator_session.user = user_key;
    operator_session.operator = operator;
    operator_session.vault = vault;
    operator_session.amount_for_user = 0;
    operator_session.amount_for_operator = 0;
    operator_session.bump = bump;
    Ok(())
}

} // verus!
