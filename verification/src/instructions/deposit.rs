//! Funding a session.

use vstd::prelude::*;
use crate::error::NeobotsError;
use crate::states::operatorsession::OperatorSession;

verus! {

impl OperatorSession {
    /// The session after the participant paid in `amount`, or why it cannot:
    /// only an open session takes deposits, and it takes them as often as the
    /// balance has room.
    pub open spec fn funded(self, amount: u64) -> Result<OperatorSession, NeobotsError> {
        if !self.is_active() {
            Err(NeobotsError::OperatorSessionNotInitialized)
        } else if self.amount_for_user + amount > u64::MAX {
            Err(NeobotsError::MathOverflow)
        } else {
            Ok(OperatorSession { amount_for_user: (self.amount_for_user + amount) as u64, ..self })
        }
    }
}

/// Books a deposit of `amount` by the participant. The caller moves that
/// amount from the participant's token account into the vault.
///
/// Fails with `OperatorSessionNotInitialized` unless the session is open, and
/// with `MathOverflow` if the balance cannot hold the amount; a rejected
/// deposit changes nothing. Otherwise `amount_for_user` grows by `amount`. A
/// session may be funded any number of times.
pub fn handle_deposit(operator_session: &mut OperatorSession, amount: u64) -> (r: Result<
    (),
    NeobotsError,
>)
    ensures
        match old(operator_session).funded(amount) {
            Ok(after) => r is Ok && *final(operator_session) == after,
            Err(e) => r == Err::<(), NeobotsError>(e) && *final(operator_session) == *old(
                operator_session,
            ),
        },
        r is Ok ==> final(operator_session).total() == old(operator_session).total() + amount,
{
    if !operator_session.is_active() {
        return Err(NeobotsError::OperatorSessionNotInitialized);
    }
    match operator_session.amount_for_user.checked_add(amount) {
        Some(balance) => {
            operator_session.amount_for_user = balance;
            Ok(())
        },
        None => Err(NeobotsError::MathOverflow),
    }
}

} // verus!
