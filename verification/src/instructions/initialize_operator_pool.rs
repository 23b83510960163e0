//! Creating the operator pool.

use vstd::prelude::*;
use crate::error::NeobotsError;
use crate::key::Key;
use crate::states::operatorpool::OperatorPool;

verus! {

/// Creates the operator pool that `authority` controls. Never fails.
pub fn handle_initialize_operator_pool(authority: Key, bump: u8) -> (r: Result<
    OperatorPool,
    NeobotsError,
>)
    ensures
        r is Ok,
        r->Ok_0 == (OperatorPool { authority, bump }),
{
    Ok(OperatorPool { authority, bump })
}

} // verus!
