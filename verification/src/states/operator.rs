//! The operator: a delegate that acts for participants against a fee.

use vstd::prelude::*;
use crate::key::Key;
use crate::states::shared::OperatorPrice;

verus! {

/// An operator and its fees. The fees change only by an update of the
/// record, never while an action is handled.
#[derive(Clone, Copy, Debug, PartialEq, Eq)]
pub struct Operator {
    /// Who controls the operator.
    pub authority: Key,
    /// Fees in force.
    pub price: OperatorPrice,
    /// Fees staged for the next round.
    pub next_round_price: OperatorPrice,
    pub bump: u8,
}

} // verus!
