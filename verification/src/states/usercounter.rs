//! The participant counter of a forum.

use vstd::prelude::*;

verus! {

/// How many participants a forum has.
#[derive(Clone, Copy, Debug, PartialEq, Eq, Structural)]
pub struct UserCounter {
    pub count: u64,
    pub bump: u8,
}

} // verus!
