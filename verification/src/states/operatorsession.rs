//! The operator session: the sub-ledger between one participant and the
//! operator that acts for it.

use vstd::prelude::*;
use crate::key::Key;

verus! {

/// The two balances that a participant's deposits are split into: what the
/// operator may still spend for the participant, and what the operator has
/// earned. No operation creates value in it.
#[derive(Clone, Copy, Debug, PartialEq, Eq)]
pub struct OperatorSession {
    /// The participant that funds the session; all-zero until the session is
    /// opened.
    pub user: Key,
    /// The operator bound to the session.
    pub operator: Key,
    /// The token account that holds the deposits.
    pub vault: Key,
    /// What the operator may still spend for the participant.
    pub amount_for_user: u64,
    /// Fees that the operator has earned.
    pub amount_for_operator: u64,
    pub bump: u8,
}

impl OperatorSession {
    /// The session has been opened for a participant.
    pub open spec fn spec_is_active(&self) -> bool {
        !self.user.is_zero()
    }

    #[verifier::when_used_as_spec(spec_is_active)]
    pub fn is_active(&self) -> (r: bool)
        ensures
            r == self.spec_is_active(),
    {
        !self.user.is_zero()
    }

    /// Everything that the session holds, for the participant and for the
    /// operator together.
    pub open spec fn total(&self) -> int {
        self.amount_for_user + self.amount_for_operator
    }
}

/// A session that has not been opened: every identity all-zero, nothing held.
impl Default for OperatorSession {
    fn default() -> (r: OperatorSession)
        ensures
            !r.is_active(),
            r.user.is_zero(),
            r.operator.is_zero(),
            r.vault.is_zero(),
            r.amount_for_user == 0,
            r.amount_for_operator == 0,
            r.bump == 0,
    {
        OperatorSession {
            user: Key::default(),
            operator: Key::default(),
            vault: Key::default(),
            amount_for_user: 0,
            amount_for_operator: 0,
            bump: 0,
        }
    }
}

} // verus!
