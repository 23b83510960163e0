//! Why an operation was rejected.

use vstd::prelude::*;

verus! {

/// Every operation either applies in full or is rejected with one of these
/// and leaves the records as they were.
///
/// Callers number the errors by the order of the variants, so new variants go
/// at the end. `ClaimExceedBalance`, `UserIsBanned`, `InvalidNftOwnership`,
/// `ExceedMaxRepeatCount` and `AccessDenied` are returned by no operation of
/// this crate; they are kept for callers that make those checks themselves.
#[derive(Clone, Copy, Debug, PartialEq, Eq, Structural)]
pub enum NeobotsError {
    /// The asset does not belong to the forum's collection.
    NFTNotVerified,
    /// The caller neither owns the asset nor is the participant's operator.
    NFTNotOwned,
    /// The action-point counter for the action is at zero.
    NotEnoughActionPoints,
    /// A claim asked for more than the claimable balance.
    ClaimExceedBalance,
    /// The running round has not lasted its full duration yet.
    TooEarlyToAdvanceRound,
    /// The participant is banned from the action.
    UserIsBanned,
    /// There is nothing to pay out.
    NotEnoughClaimableAmount,
    /// The asset is not held by the signer in the right amount.
    InvalidNftOwnership,
    /// A counter or balance would leave its numeric range.
    MathOverflow,
    /// More repeated interactions than the metrics can hold.
    ExceedMaxRepeatCount,
    /// The caller is not the administrator.
    AccessDenied,
    /// The forum name is not the one this deployment serves.
    InvalidForumName,
    /// The token is not the forum's reward token.
    InvalidMint,
    /// The session has not been opened yet.
    OperatorSessionNotInitialized,
    /// The session has been opened before.
    OperatorSessionAlreadyInitialized,
    /// The delegated balance, or the vault, holds less than the amount needed.
    InsufficientFunds,
    /// An amount that must be positive is zero.
    InvalidInput,
    /// Participant, session and operator do not name the same operator.
    OperatorKeyMismatch,
}

} // verus!
