//! Fixed-point arithmetic on `WAD`-scaled integers.
use vstd::prelude::*;

use crate::error::StakingError;

verus! {

/// The fixed-point scale: one whole unit is `WAD`.
pub const WAD: u128 = 1_000_000_000_000_000_000;

/// `value * scale / denominator`, rounded down, over the integers.
pub open spec fn mul_div(value: int, scale: int, denominator: int) -> int {
    value * scale / denominator
}

/// Computes `value * numerator_scale / denominator`, rounded down.
///
/// Fails with `ArithmeticOverflow` exactly when the product does not fit in
/// 128 bits; the result itself never exceeds the product.
pub fn scaled_mul_div(value: u128, numerator_scale: u128, denominator: u128) -> (r: Result<
    u128,
    StakingError,
>)
    requires
        denominator > 0,
    ensures
        value * numerator_scale > u128::MAX ==> r == Err::<u128, StakingError>(
            StakingError::ArithmeticOverflow,
        ),
        value * numerator_scale <= u128::MAX ==> r == Ok::<u128, StakingError>(
            mul_div(value as int, numerator_scale as int, denominator as int) as u128,
        ),
{
    match value.checked_mul(numerator_scale) {
        None => Err(StakingError::ArithmeticOverflow),
        Some(product) => {
            proof {
                lemma_div_le(product as int, denominator as int);
            }
            Ok(product / denominator)
        },
    }
}

/// A non-negative quotient never exceeds its dividend.
pub proof fn lemma_div_le(x: int, d: int)
    requires
        x >= 0,
        d > 0,
    ensures
        0 <= x / d <= x,
{
    vstd::arithmetic::div_mod::lemma_div_is_ordered_by_denominator(x, 1, d);
    vstd::arithmetic::div_mod::lemma_div_pos_is_pos(x, d);
}

} // verus!
