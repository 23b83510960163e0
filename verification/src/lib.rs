//! Round-based reward economy for a forum: per-round action budgets, reward
//! accrual, emission-capped claims and an operator delegation sub-ledger.
//!
//! Every operation works on plain records that the caller loads and stores.
//! It either applies in full or is rejected with a [`NeobotsError`] and
//! leaves every record as it was. It takes the records that it changes by
//! exclusive reference, so two operations on one record never interleave.
//! Token transfers, record storage and the clock stay with the caller:
//! operations take the time as an argument and return the amounts that the
//! caller is to move.
//!
//! Three points of the design are open and left to the caller: whether a
//! claim is held to the round's emission cap (`enforce_cap`), whether a new
//! round starts from the baseline or adapts to the last one
//! ([`RoundPolicy`]), and which checks on the caller an operation is
//! preceded by ([`access`]).

pub mod access;
pub mod constants;
pub mod error;
pub mod history;
pub mod instructions;
pub mod key;
pub mod ratio;
pub mod states;

pub use crate::access::{
    authorize, resolve_caller, verify_collection, verify_mint, Asset, Caller, Operation,
    UpdateAuthority,
};
pub use crate::constants::{
    initial_action_points, initial_round_config, initial_round_status,
    BASE_ROUND_DISTRIBUTION_RATE, BASE_ROUND_MAX_DISTRIBUTION, INFLATION_RATE, RATIO_SCALE,
    TOKEN_DECIMALS, TOKEN_NAME, TOKEN_SYMBOL, TOKEN_UNIT,
};
pub use crate::error::NeobotsError;
pub use crate::instructions::add_comment::handle_add_comment;
pub use crate::instructions::add_reaction::{handle_add_reaction, ReactionType};
pub use crate::instructions::advance_round::{
    adaptive_cap, adaptive_rate, bounded_rate, handle_advance_round, is_round_over, RoundPolicy,
};
pub use crate::instructions::claim::handle_claim;
pub use crate::instructions::create_post::handle_create_post;
pub use crate::instructions::deposit::handle_deposit;
pub use crate::instructions::initialize_forum::{handle_initialize_forum, FORUM_NAME};
pub use crate::instructions::initialize_operator::handle_initialize_operator;
pub use crate::instructions::initialize_operator_pool::handle_initialize_operator_pool;
pub use crate::instructions::initialize_operator_session::handle_initialize_operator_session;
pub use crate::instructions::initialize_user::handle_initialize_user;
pub use crate::instructions::operator_add_comment::handle_operator_add_comment;
pub use crate::instructions::reset_user_action_points::handle_reset_user_action_points;
pub use crate::instructions::set_operator::handle_set_operator;
pub use crate::instructions::set_user_operator::handle_set_user_operator;
pub use crate::instructions::shared::{
    budget_in_round, calculate_reward, distribute_reward, reset_user_if_needed,
};
pub use crate::instructions::unset_user_operator::handle_unset_user_operator;
pub use crate::instructions::withdraw::handle_withdraw;
pub use crate::key::Key;
pub use crate::ratio::{ratio_of, saturating_product, scale_by};
pub use crate::states::forum::{Forum, RoundConfig, RoundStatus};
pub use crate::states::ledger::{RewardReason, RewardRecord};
pub use crate::states::operator::Operator;
pub use crate::states::operatorpool::OperatorPool;
pub use crate::states::operatorsession::OperatorSession;
pub use crate::states::post::Post;
pub use crate::states::shared::{ActionPoints, OperatorPrice};
pub use crate::states::user::{InteractionMetricEntry, User, MAX_INTERACTION_METRICS};
pub use crate::states::usercounter::UserCounter;
