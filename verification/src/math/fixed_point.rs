//! Fixed-point arithmetic with 64 fractional bits.
//!
//! A value `v` stands for the number `v / 2^64`. Everything here is integer
//! arithmetic, so that every machine computes the same bits. A product that
//! does not fit 128 bits saturates.

use vstd::prelude::*;
use vstd::arithmetic::div_mod::*;
use vstd::arithmetic::mul::*;
use vstd::arithmetic::power::*;
use vstd::arithmetic::power2::*;

verus! {

/// 1.0 in fixed point: `2^64`.
pub const Q64_64: u128 = 0x1_0000_0000_0000_0000;

/// `ln(2)` in fixed point.
pub const LN_2_Q64: u128 = 12786308645202655660;

/// `2^128`, one more than the largest 128-bit value.
pub open spec fn two_pow_128() -> int {
    0x1_0000_0000_0000_0000_0000_0000_0000_0000int
}

/// The position of the highest set bit: `floor(log2(v))`, and zero for zero.
pub open spec fn floor_log2(v: nat) -> nat
    decreases v,
{
    if v <= 1 {
        0
    } else {
        1 + floor_log2(v / 2)
    }
}

/// A value below `2^k` has its highest bit below position `k`.
pub proof fn lemma_floor_log2_below(v: nat, k: nat)
    requires
        k >= 1,
        v < pow2(k),
    ensures
        floor_log2(v) < k,
    decreases k,
{
    if v > 1 {
        lemma_pow2_unfold(k);
        if k == 1 {
            lemma2_to64();
        } else {
            lemma_floor_log2_below(v / 2, (k - 1) as nat);
        }
    }
}

/// A value of at least `2^k` has its highest bit at position `k` or above.
pub proof fn lemma_floor_log2_at_least(v: nat, k: nat)
    requires
        v >= pow2(k),
    ensures
        floor_log2(v) >= k,
    decreases k,
{
    if k > 0 {
        lemma_pow2_unfold(k);
        lemma_pow2_pos((k - 1) as nat);
        lemma_floor_log2_at_least(v / 2, (k - 1) as nat);
    }
}

/// `2^128` as a power of two.
pub proof fn lemma_pow2_128()
    ensures
        pow2(128) == two_pow_128(),
        pow2(64) == Q64_64,
{
    lemma2_to64();
    lemma_pow2_adds(64, 64);
    assert(0x1_0000_0000_0000_0000int * 0x1_0000_0000_0000_0000int
        == 0x1_0000_0000_0000_0000_0000_0000_0000_0000int) by (nonlinear_arith);
}

/// The position of the highest set bit of `value`.
pub fn bit_position(value: u128) -> (r: u32)
    ensures
        r == floor_log2(value as nat),
        r <= 127,
{
    proof {
        lemma_pow2_128();
        lemma_floor_log2_below(value as nat, 128);
    }
    let mut v: u128 = value;
    let mut p: u32 = 0;
    while v > 1
        invariant
            p + floor_log2(v as nat) == floor_log2(value as nat),
            floor_log2(value as nat) <= 127,
        decreases v,
    {
        v = v / 2;
        p = p + 1;
    }
    p
}

/// The fixed-point product `floor(a * b / 2^64)`, capped at the largest
/// 128-bit value.
pub open spec fn mul_fixed(a: int, b: int) -> int {
    let p = a * b / (Q64_64 as int);
    if p > u128::MAX {
        u128::MAX as int
    } else {
        p
    }
}

/// Splitting both factors at bit 64 splits the product into four parts.
proof fn lemma_split_product(ah: int, al: int, bh: int, bl: int)
    ensures
        (ah * 0x1_0000_0000_0000_0000 + al) * (bh * 0x1_0000_0000_0000_0000 + bl) == (ah * bh
            * 0x1_0000_0000_0000_0000 + ah * bl + al * bh) * 0x1_0000_0000_0000_0000 + al * bl,
{
    assert((ah * 0x1_0000_0000_0000_0000 + al) * (bh * 0x1_0000_0000_0000_0000 + bl) == (ah * bh
        * 0x1_0000_0000_0000_0000 + ah * bl + al * bh) * 0x1_0000_0000_0000_0000 + al * bl)
        by (nonlinear_arith);
}

/// The product of two values below `2^64` is below `2^128`.
proof fn lemma_limb_product(x: int, y: int)
    requires
        0 <= x < 0x1_0000_0000_0000_0000,
        0 <= y < 0x1_0000_0000_0000_0000,
    ensures
        0 <= x * y <= 0xFFFF_FFFF_FFFF_FFFE_0000_0000_0000_0001,
{
    assert(0 <= x * y <= 0xFFFF_FFFF_FFFF_FFFF * 0xFFFF_FFFF_FFFF_FFFF) by (nonlinear_arith)
        requires
            0 <= x <= 0xFFFF_FFFF_FFFF_FFFF,
            0 <= y <= 0xFFFF_FFFF_FFFF_FFFF,
    ;
}

/// Multiply two fixed-point values, rounding down and saturating.
pub fn mul_q64(a: u128, b: u128) -> (r: u128)
    ensures
        r == mul_fixed(a as int, b as int),
{
    let ah: u128 = a / Q64_64;
    let al: u128 = a % Q64_64;
    let bh: u128 = b / Q64_64;
    let bl: u128 = b % Q64_64;
    proof {
        lemma_limb_product(ah as int, bh as int);
        lemma_limb_product(ah as int, bl as int);
        lemma_limb_product(al as int, bh as int);
        lemma_limb_product(al as int, bl as int);
        lemma_split_product(ah as int, al as int, bh as int, bl as int);
    }
    let hh: u128 = ah * bh;
    let hl: u128 = ah * bl;
    let lh: u128 = al * bh;
    let ll: u128 = al * bl;
    let ghost upper: int = hh * 0x1_0000_0000_0000_0000 + hl + lh;
    proof {
        assert((a as int) * (b as int) == upper * 0x1_0000_0000_0000_0000 + ll);
        lemma_fundamental_div_mod(ll as int, 0x1_0000_0000_0000_0000);
        lemma_mod_bound(ll as int, 0x1_0000_0000_0000_0000);
        lemma_div_pos_is_pos(ll as int, 0x1_0000_0000_0000_0000);
        let carry: int = (ll as int) / 0x1_0000_0000_0000_0000;
        let low: int = (ll as int) % 0x1_0000_0000_0000_0000;
        assert((a as int) * (b as int) == 0x1_0000_0000_0000_0000 * (upper + carry) + low) by {
            lemma_mul_is_distributive_add(0x1_0000_0000_0000_0000, upper, carry);
            lemma_mul_is_commutative(upper, 0x1_0000_0000_0000_0000);
        }
        lemma_fundamental_div_mod_converse(
            (a as int) * (b as int),
            0x1_0000_0000_0000_0000,
            upper + carry,
            low,
        );
        assert((a as int) * (b as int) / 0x1_0000_0000_0000_0000 == upper + carry);
    }
    if hh >= Q64_64 {
        return u128::MAX;
    }
    let top: u128 = hh * Q64_64;
    let sum1: u128 = match top.checked_add(hl) {
        Some(s) => s,
        None => {
            return u128::MAX;
        },
    };
    let sum2: u128 = match sum1.checked_add(lh) {
        Some(s) => s,
        None => {
            return u128::MAX;
        },
    };
    match sum2.checked_add(ll / Q64_64) {
        Some(s) => s,
        None => u128::MAX,
    }
}

/// `floor(2^128 / value)`: the reciprocal of a fixed-point value.
pub fn reciprocal_q64(value: u128) -> (r: u128)
    requires
        value >= 2,
    ensures
        r == two_pow_128() / (value as int),
{
    let q: u128 = u128::MAX / value;
    let rem: u128 = u128::MAX % value;
    proof {
        let m: int = u128::MAX as int;
        let v: int = value as int;
        lemma_fundamental_div_mod(m, v);
        lemma_mod_bound(m, v);
        lemma_div_is_ordered_by_denominator(m, 2, v);
        assert(m / 2 < m);
        if rem == value - 1 {
            assert(two_pow_128() == v * (q + 1) + 0) by {
                lemma_mul_is_distributive_add(v, q as int, 1);
            }
            lemma_fundamental_div_mod_converse(two_pow_128(), v, q + 1, 0);
        } else {
            assert(two_pow_128() == v * q + (rem + 1));
            lemma_fundamental_div_mod_converse(two_pow_128(), v, q as int, rem + 1);
        }
    }
    if rem == value - 1 {
        q + 1
    } else {
        q
    }
}

/// Square-and-multiply from an accumulator: while the exponent is not
/// used up, its lowest bit decides whether the running base enters the
/// accumulator, the running base is squared, and the exponent is halved.
/// Every product is a fixed-point product.
pub open spec fn pow_steps(acc: int, base: int, exp: nat) -> int
    decreases exp,
{
    if exp == 0 {
        acc
    } else {
        pow_steps(
            if exp % 2 == 1 {
                mul_fixed(acc, base)
            } else {
                acc
            },
            mul_fixed(base, base),
            exp / 2,
        )
    }
}

/// `base` to the power `exp` in fixed point, by squaring.
pub open spec fn pow_fixed(base: int, exp: nat) -> int {
    pow_steps(Q64_64 as int, base, exp)
}

/// Multiplying by 1.0 changes nothing.
pub proof fn lemma_mul_fixed_one(b: int)
    requires
        0 <= b <= u128::MAX,
    ensures
        mul_fixed(Q64_64 as int, b) == b,
        mul_fixed(b, Q64_64 as int) == b,
{
    lemma_div_multiples_vanish(b, Q64_64 as int);
    lemma_mul_is_commutative(b, Q64_64 as int);
}

/// The product of two values of at least 1.0 is at least either factor.
pub proof fn lemma_mul_fixed_grows(a: int, b: int)
    requires
        Q64_64 <= a <= u128::MAX,
        Q64_64 <= b <= u128::MAX,
    ensures
        a <= mul_fixed(a, b) <= u128::MAX,
        b <= mul_fixed(a, b),
{
    let q: int = Q64_64 as int;
    assert(a * q <= a * b) by (nonlinear_arith)
        requires
            q <= b,
            0 <= a,
    ;
    assert(q * b <= a * b) by (nonlinear_arith)
        requires
            q <= a,
            0 <= b,
    ;
    lemma_div_is_ordered(a * q, a * b, q);
    lemma_div_is_ordered(q * b, a * b, q);
    lemma_div_multiples_vanish(a, q);
    lemma_div_multiples_vanish(b, q);
    lemma_mul_is_commutative(a, q);
}

/// From an accumulator and a base of at least 1.0, the steps end at or above
/// the accumulator, within 128 bits.
pub proof fn lemma_pow_steps_grows(acc: int, base: int, exp: nat)
    requires
        Q64_64 <= acc <= u128::MAX,
        Q64_64 <= base <= u128::MAX,
    ensures
        acc <= pow_steps(acc, base, exp) <= u128::MAX,
    decreases exp,
{
    if exp > 0 {
        lemma_mul_fixed_grows(acc, base);
        lemma_mul_fixed_grows(base, base);
        let next: int = if exp % 2 == 1 {
            mul_fixed(acc, base)
        } else {
            acc
        };
        lemma_pow_steps_grows(next, mul_fixed(base, base), exp / 2);
    }
}

/// The first power is the base itself, and the zeroth is 1.0.
pub proof fn lemma_pow_fixed_small(base: int)
    requires
        0 <= base <= u128::MAX,
    ensures
        pow_fixed(base, 0) == Q64_64,
        pow_fixed(base, 1) == base,
{
    lemma_mul_fixed_one(base);
    reveal_with_fuel(pow_steps, 3);
}

/// Every power of 1.0 is 1.0.
pub proof fn lemma_pow_fixed_of_one(exp: nat)
    ensures
        pow_fixed(Q64_64 as int, exp) == Q64_64,
    decreases exp,
{
    lemma_pow_steps_of_one(exp);
}

proof fn lemma_pow_steps_of_one(exp: nat)
    ensures
        pow_steps(Q64_64 as int, Q64_64 as int, exp) == Q64_64,
    decreases exp,
{
    if exp > 0 {
        lemma_mul_fixed_one(Q64_64 as int);
        lemma_pow_steps_of_one(exp / 2);
    }
}

/// Power function for fixed-point values: `base` to the power `exp`, by
/// squaring, every product rounded down and saturating.
pub fn pow_q64(base: u128, exp: u32) -> (r: u128)
    ensures
        r == pow_fixed(base as int, exp as nat),
{
    if exp == 0 {
        return Q64_64;
    }
    if exp == 1 {
        proof {
            lemma_pow_fixed_small(base as int);
        }
        return base;
    }
    let mut result: u128 = Q64_64;
    let mut b: u128 = base;
    let mut e: u32 = exp;
    while e > 0
        invariant
            pow_steps(result as int, b as int, e as nat) == pow_fixed(base as int, exp as nat),
        decreases e,
    {
        if e % 2 == 1 {
            result = mul_q64(result, b);
        }
        b = mul_q64(b, b);
        e = e / 2;
    }
    result
}

/// The logarithm of a value of at least 1.0, in fixed point: `ln(2)` times
/// the number of whole doublings above 1.0. Zero below 1.0.
pub open spec fn ln_positive(value: int) -> int {
    let position = floor_log2(value as nat);
    if value >= 0 && position >= 64 {
        (position - 64) * (LN_2_Q64 as int)
    } else {
        0
    }
}

/// The logarithm of a positive fixed-point value: for a value above 1.0 the
/// logarithm above, for one at or below 1.0 the negated logarithm of its
/// reciprocal `floor(2^128 / value)`.
pub open spec fn ln_fixed(value: int) -> int {
    if value <= Q64_64 {
        -ln_positive(two_pow_128() / value)
    } else {
        ln_positive(value)
    }
}

/// The logarithm of `1 + step` for a step in basis points, in fixed point:
/// the step itself, `floor(2^64 * step / 10000)`.
pub open spec fn ln_step(bin_step_bps: int) -> int {
    (Q64_64 as int) * bin_step_bps / 10000
}

/// Natural log for values of at least 1.0.
pub fn integer_ln_positive(value: u128) -> (r: u128)
    ensures
        r == ln_positive(value as int),
        r <= 63 * LN_2_Q64,
{
    let position: u32 = bit_position(value);
    if position >= 64 {
        ((position - 64) as u128) * LN_2_Q64
    } else {
        0
    }
}

/// Integer natural logarithm approximation for fixed-point values.
pub fn integer_ln(value: u128) -> (r: i128)
    requires
        value > 0,
    ensures
        r == ln_fixed(value as int),
        -64 * LN_2_Q64 <= r <= 63 * LN_2_Q64,
{
    if value <= Q64_64 {
        if value == 1 {
            proof {
                lemma_pow2_128();
                lemma_floor_log2_at_least(two_pow_128() as nat, 128);
                lemma_pow2_unfold(129);
                lemma_floor_log2_below(two_pow_128() as nat, 129);
            }
            return -((64 * LN_2_Q64) as i128);
        }
        let inverse: u128 = reciprocal_q64(value);
        return -(integer_ln_positive(inverse) as i128);
    }
    integer_ln_positive(value) as i128
}

/// Natural log of `1 + bin_step`, scaled.
pub fn integer_ln_step(bin_step_bps: u16) -> (r: u128)
    ensures
        r == ln_step(bin_step_bps as int),
        bin_step_bps > 0 ==> r >= 1844674407370955,
        r <= 120890737287055546515,
{
    (Q64_64 * (bin_step_bps as u128)) / 10000
}

/// `10^exponent`, where it fits 128 bits.
pub fn checked_pow10(exponent: u8) -> (r: Option<u128>)
    ensures
        match r {
            Some(v) => v == pow(10, exponent as nat),
            None => pow(10, exponent as nat) > u128::MAX,
        },
{
    let mut acc: u128 = 1;
    let mut i: u8 = 0;
    proof {
        lemma_pow0(10);
    }
    while i < exponent
        invariant
            i <= exponent,
            acc == pow(10, i as nat),
        decreases exponent - i,
    {
        proof {
            reveal(pow);
            assert(pow(10, (i + 1) as nat) == 10 * pow(10, i as nat));
        }
        match acc.checked_mul(10) {
            Some(next) => {
                acc = next;
            },
            None => {
                proof {
                    lemma_pow_increases(10, (i + 1) as nat, exponent as nat);
                }
                return None;
            },
        }
        i = i + 1;
    }
    Some(acc)
}

} // verus!
