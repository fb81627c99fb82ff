//! Small integer helpers shared by the arithmetic modules.

use vstd::prelude::*;
use vstd::arithmetic::div_mod::*;
use vstd::arithmetic::mul::*;

verus! {

/// The product of two 64-bit values always fits in 128 bits.
pub proof fn lemma_wide_product_fits(a: u64, b: u64)
    ensures
        0 <= (a as int) * (b as int) <= 0xFFFF_FFFF_FFFF_FFFE_0000_0000_0000_0001,
{
    assert(0 <= (a as int) * (b as int) <= 0xFFFF_FFFF_FFFF_FFFF * 0xFFFF_FFFF_FFFF_FFFF)
        by (nonlinear_arith)
        requires
            0 <= a <= 0xFFFF_FFFF_FFFF_FFFF,
            0 <= b <= 0xFFFF_FFFF_FFFF_FFFF,
    ;
}

/// The exact product of two 64-bit values.
pub fn wide_mul(a: u64, b: u64) -> (r: u128)
    ensures
        r == (a as int) * (b as int),
{
    proof {
        lemma_wide_product_fits(a, b);
    }
    (a as u128) * (b as u128)
}

/// `floor(a * b / d)` computed without loss.
pub fn mul_div(a: u64, b: u64, d: u64) -> (r: u128)
    requires
        d > 0,
    ensures
        r == (a as int) * (b as int) / (d as int),
{
    wide_mul(a, b) / (d as u128)
}

/// Dividing a non-negative number by a positive one gives a non-negative
/// quotient that does not exceed the dividend.
pub proof fn lemma_div_bounds(x: int, d: int)
    requires
        0 <= x,
        0 < d,
    ensures
        0 <= x / d <= x,
{
    lemma_div_pos_is_pos(x, d);
    lemma_div_is_ordered_by_denominator(x, 1, d);
    lemma_div_basics(x);
}

} // verus!
