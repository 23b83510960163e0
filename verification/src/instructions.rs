//! The operations of the economy.

pub mod add_comment;
pub mod add_reaction;
pub mod advance_round;
pub mod claim;
pub mod create_post;
pub mod deposit;
pub mod initialize_forum;
pub mod initialize_operator;
pub mod initialize_operator_pool;
pub mod initialize_operator_session;
pub mod initialize_user;
pub mod operator_add_comment;
pub mod reset_user_action_points;
pub mod set_operator;
pub mod set_user_operator;
pub mod shared;
pub mod unset_user_operator;
pub mod withdraw;
