//! Creating an operator.

use vstd::prelude::*;
use crate::error::NeobotsError;
use crate::key::Key;
use crate::states::operator::Operator;
use crate::states::shared::OperatorPrice;

verus! {

/// Creates the operator that `authority` controls. The given fees are in
/// force at once and are also the fees staged for the next round. Never
/// fails.
pub fn handle_initialize_operator(
    authority: Key,
    bump: u8,
    price_per_post: u64,
    price_per_comment: u64,
    price_per_like: u64,
    price_per_vote: u64,
) -> (r: Result<Operator, NeobotsError>)
    ensures
        r is Ok,
        r->Ok_0 == (Operator {
            authority,
            price: OperatorPrice {
                price_per_post,
                price_per_comment,
                price_per_like,
                price_per_vote,
            },
            next_round_price: OperatorPrice {
                price_per_post,
                price_per_comment,
                price_per_like,
                price_per_vote,
            },
            bump,
        }),
{
    let price = OperatorPrice { price_per_post, price_per_comment, price_per_like, price_per_vote };
    Ok(Operator { authority, price, next_round_price: price, bump })
}

} // verus!
