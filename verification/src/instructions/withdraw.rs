//! Taking unspent funds back out of a session.

use vstd::prelude::*;
use crate::error::NeobotsError;
use crate::states::operatorsession::OperatorSession;

verus! {

impl OperatorSession {
    /// The session after the participant took out `amount` while the vault
    /// held `vault_balance`, or why it cannot: the amount must be positive,
    /// and both the vault and the participant's side must cover it.
    pub open spec fn drawn(self, vault_balance: u64, amount: u64) -> Result<
        OperatorSession,
        NeobotsError,
    > {
        if amount == 0 {
            Err(NeobotsError::InvalidInput)
        } else if vault_balance < amount || self.amount_for_user < amount {
            Err(NeobotsError::InsufficientFunds)
        } else {
            Ok(OperatorSession { amount_for_user: (self.amount_for_user - amount) as u64, ..self })
        }
    }
}

/// Books a withdrawal of `amount` by the participant, given what the vault
/// holds. The caller moves that amount from the vault to the participant's
/// token account.
///
/// Fails with `InvalidInput` if `amount` is zero, and with
/// `InsufficientFunds` if the vault or the participant's side of the session
/// holds less than `amount`; a rejected withdrawal changes nothing. Otherwise
/// `amount_for_user` shrinks by `amount`. The operator's fees are not
/// touched.
pub fn handle_withdraw(operator_session: &mut OperatorSession, vault_balance: u64, amount: u64) -> (r:
    Result<(), NeobotsError>)
    ensures
        match old(operator_session).drawn(vault_balance, amount) {
            Ok(after) => r is Ok && *final(operator_session) == after,
            Err(e) => r == Err::<(), NeobotsError>(e) && *final(operator_session) == *old(
                operator_session,
            ),
        },
        r is Ok ==> final(operator_session).total() == old(operator_session).total() - amount,
{
    if amount == 0 {
        return Err(NeobotsError::InvalidInput);
    }
    if vault_balance < amount {
        return Err(NeobotsError::InsufficientFunds);
    }
    if operator_session.amount_for_user < amount {
        return Err(NeobotsError::InsufficientFunds);
    }
    operator_session.amount_for_user = operator_session.amount_for_user - amount;
    Ok(())
}

} // verus!
