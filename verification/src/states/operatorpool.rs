//! The operator pool: the registry under which operators are created.

use vstd::prelude::*;
use crate::key::Key;

verus! {

/// The registry under which operators are created.
#[derive(Clone, Copy, Debug, PartialEq, Eq)]
pub struct OperatorPool {
    /// Who controls the pool.
    pub authority: Key,
    pub bump: u8,
}

} // verus!
