//! What holds of the records after any sequence of operations.

pub mod delegation;
pub mod emission;
pub mod participant;
