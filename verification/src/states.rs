//! The records of the economy.

pub mod forum;
pub mod ledger;
pub mod operator;
pub mod operatorpool;
pub mod operatorsession;
pub mod post;
pub mod shared;
pub mod user;
pub mod usercounter;
