//! Graduation planner: converting a scaled price into a fixed-point price and
//! a bin index, aligning bin indices to bin arrays, and spreading seed
//! liquidity over bins.

use vstd::prelude::*;
use vstd::arithmetic::div_mod::*;
use vstd::arithmetic::mul::*;
use vstd::arithmetic::power::*;
use crate::math::arith::mul_div;
use crate::math::bonding_curve::capped;
use vstd::arithmetic::power2::lemma_pow2_unfold;
use crate::math::fixed_point::{
    checked_pow10, integer_ln, integer_ln_step, lemma_floor_log2_at_least,
    lemma_floor_log2_below, lemma_pow2_128, lemma_pow_steps_grows, ln_fixed, ln_step, pow_fixed,
    pow_q64, reciprocal_q64, two_pow_128, Q64_64,
};

verus! {

/// Number of bins per bin array.
pub const BIN_ARRAY_SIZE: i32 = 64;

/// Bin deposit for liquidity seeding.
#[derive(Debug, Clone, Copy, PartialEq, Eq, Structural)]
pub struct BinDeposit {
    /// Bin index.
    pub bin_index: i32,
    /// Base amount to deposit.
    pub token_amount: u64,
    /// Quote amount to deposit.
    pub sol_amount: u64,
}

impl Default for BinDeposit {
    fn default() -> (r: Self)
        ensures
            r == (BinDeposit { bin_index: 0, token_amount: 0, sol_amount: 0 }),
    {
        BinDeposit { bin_index: 0, token_amount: 0, sol_amount: 0 }
    }
}

/// Fee configuration of a graduated pool.
#[derive(Debug, Clone, Copy, PartialEq, Eq, Structural)]
pub struct OrbitFeeConfig {
    /// Split to holders, in millionths of the fee (300000 = 30%).
    pub split_holders_microbps: u32,
    /// Split to NFT holders, in millionths of the fee (200000 = 20%).
    pub split_nft_microbps: u32,
    /// Extra split to the creator, in millionths of the fee.
    pub split_creator_extra_microbps: u32,
    /// Base fee in basis points.
    pub base_fee_bps: u16,
    /// Creator cut in basis points.
    pub creator_cut_bps: u16,
    /// Dynamic fee enabled.
    pub dynamic_fee_enabled: bool,
    /// Max dynamic fee in basis points.
    pub max_dynamic_fee_bps: u16,
}

/// The fee configuration of a graduated pool whose creator takes
/// `creator_fee_bps`.
pub open spec fn graduation_fee_config(creator_fee_bps: u16) -> OrbitFeeConfig {
    OrbitFeeConfig {
        split_holders_microbps: 300_000,
        split_nft_microbps: 200_000,
        split_creator_extra_microbps: 0,
        base_fee_bps: 30,
        creator_cut_bps: creator_fee_bps,
        dynamic_fee_enabled: true,
        max_dynamic_fee_bps: 100,
    }
}

impl Default for OrbitFeeConfig {
    fn default() -> (r: Self)
        ensures
            r == graduation_fee_config(0),
    {
        create_graduation_fee_config(0)
    }
}

/// Create the fee configuration for a graduated pool.
pub fn create_graduation_fee_config(creator_fee_bps: u16) -> (r: OrbitFeeConfig)
    ensures
        r == graduation_fee_config(creator_fee_bps),
{
    OrbitFeeConfig {
        split_holders_microbps: 300_000,
        split_nft_microbps: 200_000,
        split_creator_extra_microbps: 0,
        base_fee_bps: 30,
        creator_cut_bps: creator_fee_bps,
        dynamic_fee_enabled: true,
        max_dynamic_fee_bps: 100,
    }
}

/// A scaled price as a fixed-point value: `floor(price * 2^64 / 10^decimals)`.
pub open spec fn fixed_of_price(price: int, decimals: nat) -> int {
    price * (Q64_64 as int) / pow(10, decimals)
}

/// A fixed-point value as a scaled price:
/// `floor(price_fixed * 10^decimals / 2^64)`.
pub open spec fn price_of_fixed(price_fixed: int, decimals: nat) -> int {
    price_fixed * pow(10, decimals) / (Q64_64 as int)
}

/// Convert a price scaled by 1e9 to fixed point.
pub fn price_to_q64_64(price_lamports_per_token: u64, token_decimals: u8) -> (r: u128)
    ensures
        r == fixed_of_price(price_lamports_per_token as int, token_decimals as nat),
{
    let scaled: u128 = (price_lamports_per_token as u128) * Q64_64;
    match checked_pow10(token_decimals) {
        Some(adjustment) => {
            proof {
                lemma_pow_positive(10, token_decimals as nat);
            }
            scaled / adjustment
        },
        None => {
            proof {
                lemma_basic_div(scaled as int, pow(10, token_decimals as nat));
            }
            0
        },
    }
}

/// Convert a fixed-point price back to a price scaled by 1e9, capped at the
/// largest 64-bit value.
pub fn q64_64_to_price(price_q64_64: u128, token_decimals: u8) -> (r: u64)
    ensures
        r == capped(price_of_fixed(price_q64_64 as int, token_decimals as nat)),
{
    let ghost adjustment_exact: int = pow(10, token_decimals as nat);
    let ghost product_exact: int = (price_q64_64 as int) * adjustment_exact;
    proof {
        lemma_pow_positive(10, token_decimals as nat);
    }
    if price_q64_64 == 0 {
        proof {
            lemma_mul_basics(adjustment_exact);
        }
        return 0;
    }
    let wide: Option<u128> = match checked_pow10(token_decimals) {
        Some(adjustment) => price_q64_64.checked_mul(adjustment),
        None => None,
    };
    match wide {
        Some(product) => {
            let price: u128 = product / Q64_64;
            if price > u64::MAX as u128 {
                u64::MAX
            } else {
                price as u64
            }
        },
        None => {
            proof {
                assert(product_exact >= adjustment_exact) by (nonlinear_arith)
                    requires
                        product_exact == (price_q64_64 as int) * adjustment_exact,
                        price_q64_64 >= 1,
                        adjustment_exact > 0,
                ;
                assert(product_exact >= two_pow_128());
                lemma_div_is_ordered(two_pow_128(), product_exact, Q64_64 as int);
                assert(two_pow_128() / (Q64_64 as int) == 0x1_0000_0000_0000_0000int);
            }
            u64::MAX
        },
    }
}

/// The bin of a fixed-point price: `floor(ln(price) / ln(1 + step))`, with
/// the logarithms of the fixed-point module. A zero price lies in the lowest
/// bin there is, and a zero step puts every price in bin zero.
pub open spec fn bin_index_of(price_fixed: int, bin_step_bps: int) -> int {
    if price_fixed == 0 {
        i32::MIN as int
    } else if ln_step(bin_step_bps) == 0 {
        0
    } else {
        ln_fixed(price_fixed) / ln_step(bin_step_bps)
    }
}

/// Dividing a negated number rounds away from zero.
proof fn lemma_floor_div_negative(n: int, d: int)
    requires
        0 <= n,
        0 < d,
    ensures
        (-n) / d == if n % d == 0 {
            -(n / d)
        } else {
            -(n / d) - 1
        },
{
    lemma_fundamental_div_mod(n, d);
    lemma_mod_bound(n, d);
    let q: int = n / d;
    let r: int = n % d;
    if r == 0 {
        assert(-n == d * (-q) + 0) by (nonlinear_arith)
            requires
                n == d * q + r,
                r == 0,
        ;
        lemma_fundamental_div_mod_converse(-n, d, -q, 0);
    } else {
        assert(-n == d * (-q - 1) + (d - r)) by (nonlinear_arith)
            requires
                n == d * q + r,
        ;
        lemma_fundamental_div_mod_converse(-n, d, -q - 1, d - r);
    }
}

/// Calculate the bin index of a fixed-point price.
pub fn price_to_bin_index(price_q64_64: u128, bin_step_bps: u16) -> (r: i32)
    ensures
        r == bin_index_of(price_q64_64 as int, bin_step_bps as int),
{
    if price_q64_64 == 0 {
        return i32::MIN;
    }
    let ln_price: i128 = integer_ln(price_q64_64);
    let step: u128 = integer_ln_step(bin_step_bps);
    if step == 0 {
        return 0;
    }
    if ln_price >= 0 {
        let quotient: u128 = (ln_price as u128) / step;
        proof {
            lemma_div_is_ordered_by_denominator(ln_price as int, 1844674407370955, step as int);
        }
        quotient as i32
    } else {
        let magnitude: u128 = (-ln_price) as u128;
        let quotient: u128 = magnitude / step;
        let remainder: u128 = magnitude % step;
        proof {
            lemma_floor_div_negative(magnitude as int, step as int);
            lemma_div_is_ordered_by_denominator(magnitude as int, 1844674407370955, step as int);
        }
        if remainder == 0 {
            -(quotient as i32)
        } else {
            -(quotient as i32) - 1
        }
    }
}

/// `1 + step` in fixed point, for a step in basis points.
pub open spec fn one_plus_step(bin_step_bps: int) -> int {
    Q64_64 + (Q64_64 as int) * bin_step_bps / 10000
}

/// The fixed-point price of a bin: `(1 + step)^bin_index` by squaring, and
/// for a negative index the reciprocal of the power of its magnitude.
pub open spec fn bin_price_of(bin_index: int, bin_step_bps: int) -> int {
    if bin_index >= 0 {
        pow_fixed(one_plus_step(bin_step_bps), bin_index as nat)
    } else {
        two_pow_128() / pow_fixed(one_plus_step(bin_step_bps), (-bin_index) as nat)
    }
}

/// Calculate the fixed-point price of a bin index.
pub fn bin_index_to_price(bin_index: i32, bin_step_bps: u16) -> (r: u128)
    ensures
        r == bin_price_of(bin_index as int, bin_step_bps as int),
{
    let base: u128 = Q64_64 + (Q64_64 * (bin_step_bps as u128)) / 10000;
    if bin_index >= 0 {
        pow_q64(base, bin_index as u32)
    } else {
        let magnitude: u32 = (-(bin_index as i64)) as u32;
        proof {
            lemma_pow_steps_grows(Q64_64 as int, base as int, magnitude as nat);
        }
        let denominator: u128 = pow_q64(base, magnitude);
        reciprocal_q64(denominator)
    }
}

/// Bin zero survives the round trip at every bin step: its price is 1.0, and
/// the bin of 1.0 is zero.
pub proof fn lemma_bin_zero_round_trip(bin_step_bps: u16)
    ensures
        bin_price_of(0, bin_step_bps as int) == Q64_64,
        bin_index_of(bin_price_of(0, bin_step_bps as int), bin_step_bps as int) == 0,
{
    lemma_pow2_128();
    lemma_pow2_unfold(65);
    lemma_floor_log2_at_least(Q64_64 as nat, 64);
    lemma_floor_log2_below(Q64_64 as nat, 65);
    assert(two_pow_128() / (Q64_64 as int) == Q64_64);
    if ln_step(bin_step_bps as int) != 0 {
        assert(0int / ln_step(bin_step_bps as int) == 0) by {
            lemma_div_basics(ln_step(bin_step_bps as int));
        }
    }
}

/// The first bin of the bin array that holds `bin_index`: the index rounded
/// down, toward negative infinity, to a multiple of the array size.
pub open spec fn bin_array_lower_of(bin_index: int) -> int {
    (bin_index / (BIN_ARRAY_SIZE as int)) * (BIN_ARRAY_SIZE as int)
}

/// Get the lower bin index of the bin array that holds a bin.
pub fn get_bin_array_lower_index(bin_index: i32) -> (r: i32)
    ensures
        r == bin_array_lower_of(bin_index as int),
        r <= bin_index < r + BIN_ARRAY_SIZE,
        r % BIN_ARRAY_SIZE == 0,
{
    if bin_index >= 0 {
        (bin_index / BIN_ARRAY_SIZE) * BIN_ARRAY_SIZE
    } else {
        let below: i32 = -(bin_index + 1);
        let arrays: i32 = below / BIN_ARRAY_SIZE;
        -(arrays + 1) * BIN_ARRAY_SIZE
    }
}

/// Get the offset of a bin within the bin array that starts at
/// `lower_bin_index`.
pub fn get_bin_array_offset(bin_index: i32, lower_bin_index: i32) -> (r: u32)
    requires
        lower_bin_index <= bin_index,
    ensures
        r == bin_index - lower_bin_index,
{
    ((bin_index as i64) - (lower_bin_index as i64)) as u32
}

/// Distribution parameters for seed liquidity.
#[derive(Debug, Clone, Copy, PartialEq, Eq, Structural)]
pub struct SeedDistributionParams {
    /// Total base amount to distribute.
    pub total_tokens: u64,
    /// Total quote amount to distribute.
    pub total_sol: u64,
    /// Active bin index (current price).
    pub active_bin_index: i32,
    /// Number of bins to use.
    pub num_bins: u8,
    /// Bin step in basis points.
    pub bin_step_bps: u16,
}

/// The weight of the `i`-th of `num_bins` bins: the weights form a triangle
/// whose peak, `num_bins`, sits on the middle bin.
pub open spec fn seed_weight(num_bins: int, i: int) -> int {
    let half = num_bins / 2;
    num_bins - (if i >= half {
        i - half
    } else {
        half - i
    })
}

/// The sum of the weights of the first `upto` bins.
pub open spec fn seed_weight_sum(num_bins: int, upto: int) -> int
    decreases upto,
{
    if upto <= 0 {
        0
    } else {
        seed_weight_sum(num_bins, upto - 1) + seed_weight(num_bins, upto - 1)
    }
}

/// The deposit planned for the `i`-th bin. The bins are centred on the
/// active bin. A bin below it takes its weighted share of the base amount, a
/// bin above it its weighted share of the quote amount, and the active bin
/// half of its share of each.
pub open spec fn seed_deposit(params: SeedDistributionParams, i: int) -> BinDeposit {
    let n = params.num_bins as int;
    let total_weight = seed_weight_sum(n, n);
    let weight = seed_weight(n, i);
    let bin_index = params.active_bin_index - n / 2 + i;
    let token_share = params.total_tokens * weight / total_weight;
    let sol_share = params.total_sol * weight / total_weight;
    if bin_index < params.active_bin_index {
        BinDeposit { bin_index: bin_index as i32, token_amount: token_share as u64, sol_amount: 0 }
    } else if bin_index > params.active_bin_index {
        BinDeposit { bin_index: bin_index as i32, token_amount: 0, sol_amount: sol_share as u64 }
    } else {
        BinDeposit {
            bin_index: bin_index as i32,
            token_amount: (token_share / 2) as u64,
            sol_amount: (sol_share / 2) as u64,
        }
    }
}

/// Whether a deposit carries anything.
pub open spec fn is_funded() -> spec_fn(BinDeposit) -> bool {
    |deposit: BinDeposit| deposit.token_amount > 0 || deposit.sol_amount > 0
}

/// The planned deposits of all bins, lowest bin first.
pub open spec fn planned_deposits(params: SeedDistributionParams) -> Seq<BinDeposit> {
    Seq::new(params.num_bins as nat, |i: int| seed_deposit(params, i))
}

/// The seed distribution: the planned deposits that carry anything, lowest
/// bin first.
pub open spec fn seed_deposits(params: SeedDistributionParams) -> Seq<BinDeposit> {
    planned_deposits(params).filter(is_funded())
}

/// Every weight lies between 1 and the number of bins, and the sum of the
/// first `upto` weights covers each of them.
proof fn lemma_weight_bounds(num_bins: int, upto: int, j: int)
    requires
        0 <= j < upto <= num_bins <= 255,
    ensures
        1 <= seed_weight(num_bins, j) <= num_bins,
        seed_weight(num_bins, j) <= seed_weight_sum(num_bins, upto) <= upto * 255,
        seed_weight_sum(num_bins, upto - 1) >= 0,
    decreases upto,
{
    if j < upto - 1 {
        lemma_weight_bounds(num_bins, upto - 1, j);
    } else if upto > 1 {
        lemma_weight_bounds(num_bins, upto - 1, 0);
    }
}

/// A share by weight never exceeds the whole.
proof fn lemma_share_bounded(total: int, weight: int, total_weight: int)
    requires
        0 <= total,
        0 <= weight <= total_weight,
        0 < total_weight,
    ensures
        0 <= total * weight / total_weight <= total,
{
    lemma_mul_nonnegative(total, weight);
    lemma_div_pos_is_pos(total * weight, total_weight);
    lemma_mul_inequality(weight, total_weight, total);
    lemma_mul_is_commutative(total, weight);
    lemma_mul_is_commutative(total, total_weight);
    lemma_div_is_ordered(total * weight, total * total_weight, total_weight);
    lemma_div_multiples_vanish(total, total_weight);
    lemma_mul_is_commutative(total_weight, total);
}

/// The weight of the `i`-th of `num_bins` bins.
fn seed_weight_at(num_bins: u8, i: u8) -> (weight: u64)
    requires
        i < num_bins,
    ensures
        weight == seed_weight(num_bins as int, i as int),
{
    let half: u8 = num_bins / 2;
    let distance: u8 = if i >= half {
        i - half
    } else {
        half - i
    };
    proof {
        lemma_weight_bounds(num_bins as int, num_bins as int, i as int);
    }
    (num_bins - distance) as u64
}

/// Calculate the seed liquidity distribution across bins.
///
/// The bins are centred on the active bin: bins below it take base units,
/// bins above it take quote units, the active bin takes both. A bin whose
/// share rounds down to nothing is left out.
pub fn calculate_seed_distribution(params: SeedDistributionParams) -> (deposits: Vec<BinDeposit>)
    requires
        i32::MIN <= params.active_bin_index - params.num_bins / 2,
        params.active_bin_index - params.num_bins / 2 + params.num_bins <= i32::MAX,
    ensures
        deposits@ == seed_deposits(params),
{
    let num_bins: u8 = params.num_bins;
    let mut deposits: Vec<BinDeposit> = Vec::with_capacity(num_bins as usize);
    let ghost planned: Seq<BinDeposit> = planned_deposits(params);
    if num_bins == 0 {
        return deposits;
    }
    let half_bins: i32 = (num_bins / 2) as i32;
    let start_bin: i32 = params.active_bin_index - half_bins;

    let mut total_weight: u64 = 0;
    let mut i: u8 = 0;
    while i < num_bins
        invariant
            i <= num_bins,
            total_weight == seed_weight_sum(num_bins as int, i as int),
            total_weight <= i * 255,
        decreases num_bins - i,
    {
        let weight: u64 = seed_weight_at(num_bins, i);
        proof {
            lemma_weight_bounds(num_bins as int, (i + 1) as int, i as int);
        }
        total_weight = total_weight + weight;
        i = i + 1;
    }
    proof {
        lemma_weight_bounds(num_bins as int, num_bins as int, 0);
    }

    let mut j: u8 = 0;
    while j < num_bins
        invariant
            j <= num_bins,
            num_bins == params.num_bins,
            num_bins > 0,
            half_bins == num_bins / 2,
            start_bin == params.active_bin_index - half_bins,
            start_bin + num_bins <= i32::MAX,
            total_weight == seed_weight_sum(num_bins as int, num_bins as int),
            total_weight > 0,
            planned == planned_deposits(params),
            deposits@ == planned.take(j as int).filter(is_funded()),
        decreases num_bins - j,
    {
        let bin_index: i32 = start_bin + j as i32;
        let weight: u64 = seed_weight_at(num_bins, j);
        proof {
            lemma_weight_bounds(num_bins as int, num_bins as int, j as int);
            lemma_share_bounded(params.total_tokens as int, weight as int, total_weight as int);
            lemma_share_bounded(params.total_sol as int, weight as int, total_weight as int);
        }
        let token_share: u64 = mul_div(params.total_tokens, weight, total_weight) as u64;
        let sol_share: u64 = mul_div(params.total_sol, weight, total_weight) as u64;
        let deposit: BinDeposit = if bin_index < params.active_bin_index {
            BinDeposit { bin_index, token_amount: token_share, sol_amount: 0 }
        } else if bin_index > params.active_bin_index {
            BinDeposit { bin_index, token_amount: 0, sol_amount: sol_share }
        } else {
            BinDeposit { bin_index, token_amount: token_share / 2, sol_amount: sol_share / 2 }
        };
        proof {
            let next: Seq<BinDeposit> = planned.take(j + 1);
            assert(deposit == seed_deposit(params, j as int));
            assert(next.drop_last() == planned.take(j as int));
            assert(next.last() == deposit);
            reveal_with_fuel(Seq::filter, 2);
        }
        if deposit.token_amount > 0 || deposit.sol_amount > 0 {
            deposits.push(deposit);
        }
        j = j + 1;
    }
    proof {
        assert(planned.take(num_bins as int) == planned);
    }
    deposits
}

} // verus!
