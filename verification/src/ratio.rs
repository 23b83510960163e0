//! Fixed-point ratios over `u64`, with products that stop at `u64::MAX`.

use vstd::prelude::*;
use crate::constants::RATIO_SCALE;

verus! {

/// `a * b`, or `u64::MAX` where the product does not fit.
pub open spec fn spec_saturating_product(a: u64, b: u64) -> u64 {
    if a * b > u64::MAX {
        u64::MAX
    } else {
        (a * b) as u64
    }
}

#[verifier::when_used_as_spec(spec_saturating_product)]
pub fn saturating_product(a: u64, b: u64) -> (r: u64)
    ensures
        r == spec_saturating_product(a, b),
{
    match a.checked_mul(b) {
        Some(p) => p,
        None => u64::MAX,
    }
}

/// `value` multiplied by the fixed-point `ratio`, rounded down.
pub open spec fn spec_scale_by(value: u64, ratio: u64) -> u64 {
    spec_saturating_product(value, ratio) / RATIO_SCALE
}

#[verifier::when_used_as_spec(spec_scale_by)]
pub fn scale_by(value: u64, ratio: u64) -> (r: u64)
    ensures
        r == spec_scale_by(value, ratio),
{
    saturating_product(value, ratio) / RATIO_SCALE
}

/// `numerator / denominator` as a fixed-point ratio, rounded down.
pub open spec fn spec_ratio_of(numerator: u64, denominator: u64) -> u64
    recommends
        denominator > 0,
{
    spec_saturating_product(numerator, RATIO_SCALE) / denominator
}

#[verifier::when_used_as_spec(spec_ratio_of)]
pub fn ratio_of(numerator: u64, denominator: u64) -> (r: u64)
    requires
        denominator > 0,
    ensures
        r == spec_ratio_of(numerator, denominator),
{
    saturating_product(numerator, RATIO_SCALE) / denominator
}

/// Scaling by a ratio of at most 1x does not enlarge.
pub proof fn lemma_scale_by_at_most_one(value: u64, ratio: u64)
    requires
        ratio <= RATIO_SCALE,
    ensures
        spec_scale_by(value, ratio) <= value,
{
    assert(value * ratio <= value * RATIO_SCALE) by (nonlinear_arith)
        requires
            ratio <= RATIO_SCALE,
    ;
    if value * ratio > u64::MAX {
        assert(u64::MAX / RATIO_SCALE < value) by (nonlinear_arith)
            requires
                value * RATIO_SCALE > u64::MAX,
                RATIO_SCALE == 1_000_000,
        ;
    } else {
        assert((value * ratio) / (RATIO_SCALE as int) <= value) by (nonlinear_arith)
            requires
                value * ratio <= value * RATIO_SCALE,
                RATIO_SCALE == 1_000_000,
                0 <= value * ratio,
        ;
    }
}

} // verus!
