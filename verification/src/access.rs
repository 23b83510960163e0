//! Who may act: the checks on the caller and on the asset that identifies a
//! participant. The operations themselves check none of this; a caller is
//! authorized for an operation before the operation is run.

use vstd::prelude::*;
use crate::error::NeobotsError;
use crate::key::Key;
use crate::states::forum::Forum;

verus! {

/// Who may change an asset.
#[derive(Clone, Copy, Debug, PartialEq, Eq)]
pub enum UpdateAuthority {
    /// No one.
    Nobody,
    /// The holder of one address.
    Address(Key),
    /// The collection that the asset belongs to.
    Collection(Key),
}

/// What is read of the asset that identifies a participant.
#[derive(Clone, Copy, Debug, PartialEq, Eq)]
pub struct Asset {
    /// Who holds the asset.
    pub owner: Key,
    pub update_authority: UpdateAuthority,
}

/// In which capacity a caller acts for a participant.
#[derive(Clone, Copy, Debug, PartialEq, Eq, Structural)]
pub enum Caller {
    /// The holder of the participant's asset.
    Principal,
    /// The operator that the participant has authorized.
    Operator,
}

/// The operations that are made in a participant's name.
#[derive(Clone, Copy, Debug, PartialEq, Eq, Structural)]
pub enum Operation {
    InitializeUser,
    SetUserOperator,
    UnsetUserOperator,
    ResetUserActionPoints,
    CreatePost,
    AddComment,
    AddReaction,
    Claim,
    InitializeOperatorSession,
    SetOperator,
    Deposit,
    Withdraw,
    OperatorAddComment,
}

impl Operation {
    /// Whether the participant's operator may make the operation, and not
    /// only the holder of its asset. Creating the participant, naming or
    /// dismissing its operator, posting, commenting in its own name and
    /// claiming are for the holder alone.
    pub open spec fn spec_open_to_operator(&self) -> bool {
        match self {
            Operation::ResetUserActionPoints => true,
            Operation::AddReaction => true,
            Operation::InitializeOperatorSession => true,
            Operation::SetOperator => true,
            Operation::Deposit => true,
            Operation::Withdraw => true,
            Operation::OperatorAddComment => true,
            _ => false,
        }
    }

    #[verifier::when_used_as_spec(spec_open_to_operator)]
    pub fn open_to_operator(&self) -> (r: bool)
        ensures
            r == self.spec_open_to_operator(),
    {
        match self {
            Operation::ResetUserActionPoints => true,
            Operation::AddReaction => true,
            Operation::InitializeOperatorSession => true,
            Operation::SetOperator => true,
            Operation::Deposit => true,
            Operation::Withdraw => true,
            Operation::OperatorAddComment => true,
            _ => false,
        }
    }
}

/// The capacity in which `actor` may act for the participant with the given
/// asset holder and operator: as principal if it holds the asset, else as
/// operator if it is the authorized one, else in none.
pub open spec fn capacity_of(owner: Key, operator: Option<Key>, actor: Key) -> Option<Caller> {
    if owner == actor {
        Some(Caller::Principal)
    } else if operator == Some(actor) {
        Some(Caller::Operator)
    } else {
        None
    }
}

/// Resolves the capacity in which `actor` may act for the participant whose
/// asset is `asset` and whose authorized operator, if any, is `operator`.
pub fn resolve_caller(asset: &Asset, operator: &Option<Key>, actor: &Key) -> (r: Option<Caller>)
    ensures
        r == capacity_of(asset.owner, *operator, *actor),
{
    if asset.owner == *actor {
        return Some(Caller::Principal);
    }
    match operator {
        Some(authorized) => {
            if *authorized == *actor {
                Some(Caller::Operator)
            } else {
                None
            }
        },
        None => None,
    }
}

/// The asset belongs to the forum's collection: the collection is its update
/// authority.
pub open spec fn in_collection(asset: Asset, forum: Forum) -> bool {
    asset.update_authority == UpdateAuthority::Collection(forum.nft_collection)
}

/// Admits only an asset of the forum's collection: `NFTNotVerified` for any
/// other.
pub fn verify_collection(asset: &Asset, forum: &Forum) -> (r: Result<(), NeobotsError>)
    ensures
        in_collection(*asset, *forum) ==> r is Ok,
        !in_collection(*asset, *forum) ==> r == Err::<(), NeobotsError>(
            NeobotsError::NFTNotVerified,
        ),
{
    match &asset.update_authority {
        UpdateAuthority::Collection(collection) => {
            if *collection == forum.nft_collection {
                Ok(())
            } else {
                Err(NeobotsError::NFTNotVerified)
            }
        },
        _ => Err(NeobotsError::NFTNotVerified),
    }
}

/// Admits only the forum's reward token: `InvalidMint` for any other.
pub fn verify_mint(mint: &Key, forum: &Forum) -> (r: Result<(), NeobotsError>)
    ensures
        *mint == forum.mint ==> r is Ok,
        *mint != forum.mint ==> r == Err::<(), NeobotsError>(NeobotsError::InvalidMint),
{
    if *mint == forum.mint {
        Ok(())
    } else {
        Err(NeobotsError::InvalidMint)
    }
}

/// Whether `actor` is authorized for `operation` for the participant with the
/// given asset and operator, and in which capacity. The caller must hold the
/// asset, or be the participant's operator where the operation is open to
/// operators (`NFTNotOwned` otherwise); and the asset must belong to the
/// forum's collection (`NFTNotVerified` otherwise).
pub open spec fn authorized(
    operation: Operation,
    asset: Asset,
    operator: Option<Key>,
    forum: Forum,
    actor: Key,
) -> Result<Caller, NeobotsError> {
    match capacity_of(asset.owner, operator, actor) {
        None => Err(NeobotsError::NFTNotOwned),
        Some(caller) => if caller == Caller::Operator && !operation.open_to_operator() {
            Err(NeobotsError::NFTNotOwned)
        } else if !in_collection(asset, forum) {
            Err(NeobotsError::NFTNotVerified)
        } else {
            Ok(caller)
        },
    }
}

/// Authorizes `actor` for `operation` in the name of the participant whose asset
/// is `asset` and whose authorized operator, if any, is `operator`, and tells
/// in which capacity it acts.
pub fn authorize(
    operation: Operation,
    asset: &Asset,
    operator: &Option<Key>,
    forum: &Forum,
    actor: &Key,
) -> (r: Result<Caller, NeobotsError>)
    ensures
        r == authorized(operation, *asset, *operator, *forum, *actor),
{
    let caller = match resolve_caller(asset, operator, actor) {
        Some(caller) => caller,
        None => {
            return Err(NeobotsError::NFTNotOwned);
        },
    };
    match caller {
        Caller::Operator => {
            if !operation.open_to_operator() {
                return Err(NeobotsError::NFTNotOwned);
            }
        },
        Caller::Principal => {},
    }
    verify_collection(asset, forum)?;
    Ok(caller)
}

} // verus!
