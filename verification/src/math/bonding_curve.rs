//! Constant-product curve: quotes for buying and selling against virtual
//! reserves, with a fee that is split between the treasury and the creator.
//!
//! Prices are quote units per base unit, scaled by [`PRICE_PRECISION`]. Fee
//! rates are basis points. Sums saturate; a product or quotient that does not
//! fit its field rejects the trade with [`LaunchrError::MathOverflow`].

use vstd::prelude::*;
use vstd::arithmetic::div_mod::*;
use vstd::arithmetic::mul::*;
use crate::error::LaunchrError;
use crate::math::arith::{mul_div, wide_mul};

verus! {

/// Price precision multiplier (1e9).
pub const PRICE_PRECISION: u64 = 1_000_000_000;

/// Basis points denominator.
pub const BPS_DENOMINATOR: u64 = 10_000;

/// Minimum trade amount, in quote units.
pub const MIN_TRADE_AMOUNT: u64 = 1_000;

/// Result of a swap calculation.
#[derive(Debug, Clone, Copy, PartialEq, Eq, Structural)]
pub struct SwapResult {
    /// Amount of base or quote units handed out.
    pub amount_out: u64,
    /// Treasury share of the fee.
    pub protocol_fee: u64,
    /// Creator share of the fee.
    pub creator_fee: u64,
    /// Total fee taken.
    pub total_fee: u64,
    /// Virtual quote reserve after the swap.
    pub new_sol_reserve: u64,
    /// Virtual base reserve after the swap.
    pub new_token_reserve: u64,
    /// Price after the swap, scaled by `PRICE_PRECISION`.
    pub price_after: u64,
    /// Price impact in basis points.
    pub price_impact_bps: u64,
}

impl Default for SwapResult {
    fn default() -> (r: Self)
        ensures
            r == (SwapResult {
                amount_out: 0,
                protocol_fee: 0,
                creator_fee: 0,
                total_fee: 0,
                new_sol_reserve: 0,
                new_token_reserve: 0,
                price_after: 0,
                price_impact_bps: 0,
            }),
    {
        SwapResult {
            amount_out: 0,
            protocol_fee: 0,
            creator_fee: 0,
            total_fee: 0,
            new_sol_reserve: 0,
            new_token_reserve: 0,
            price_after: 0,
            price_impact_bps: 0,
        }
    }
}

/// `floor(amount * bps / 10000)`: the fee a rate takes from an amount.
pub open spec fn fee_of(amount: int, bps: int) -> int {
    amount * bps / (BPS_DENOMINATOR as int)
}

/// The scaled price of a pair of reserves, zero when there is no base.
pub open spec fn price_of(sol_reserve: int, token_reserve: int) -> int {
    if token_reserve == 0 {
        0
    } else {
        sol_reserve * (PRICE_PRECISION as int) / token_reserve
    }
}

/// The move from `before` to `after` in basis points of `before`, zero when
/// `before` is zero.
pub open spec fn impact_of(before: int, after: int) -> int {
    if before > 0 {
        (if after >= before {
            after - before
        } else {
            before - after
        }) * (BPS_DENOMINATOR as int) / before
    } else {
        0
    }
}

/// `x - y`, or zero where that would be negative.
pub open spec fn floor_sub(x: int, y: int) -> int {
    if x >= y {
        x - y
    } else {
        0
    }
}

/// `x`, or the largest 64-bit value where `x` is larger.
pub open spec fn capped(x: int) -> int {
    if x > u64::MAX {
        u64::MAX as int
    } else {
        x
    }
}

/// `x + y`, or the largest 64-bit value where the sum is larger.
pub open spec fn capped_add(x: int, y: int) -> int {
    capped(x + y)
}

/// What a buy of `sol_in` quote units against the given virtual reserves
/// yields.
///
/// The fee is taken from the input; the creator's part is carved out of it.
/// The rest enters the quote reserve, the base reserve becomes
/// `floor(k / new_quote)` with `k` the product of the old reserves, and the
/// difference is handed out.
pub open spec fn buy_quote(
    sol_in: u64,
    sol_reserve: u64,
    token_reserve: u64,
    protocol_fee_bps: u16,
    creator_fee_bps: u16,
) -> Result<SwapResult, LaunchrError> {
    let total_fee = fee_of(sol_in as int, protocol_fee_bps as int);
    let creator_fee = fee_of(sol_in as int, creator_fee_bps as int);
    let sol_in_after_fee = floor_sub(sol_in as int, total_fee);
    let new_sol_reserve = capped_add(sol_reserve as int, sol_in_after_fee);
    let new_token_reserve = (sol_reserve as int) * (token_reserve as int) / new_sol_reserve;
    let tokens_out = token_reserve - new_token_reserve;
    let price_after = price_of(new_sol_reserve, new_token_reserve);
    let price_before = price_of(sol_reserve as int, token_reserve as int);
    let impact = impact_of(price_before, price_after);
    if sol_in < MIN_TRADE_AMOUNT {
        Err(LaunchrError::TradeTooSmall)
    } else if sol_reserve == 0 || token_reserve == 0 {
        Err(LaunchrError::InvalidReserves)
    } else if total_fee > u64::MAX || creator_fee > u64::MAX {
        Err(LaunchrError::MathOverflow)
    } else if sol_in_after_fee == 0 {
        Err(LaunchrError::TradeTooSmall)
    } else if tokens_out == 0 {
        Err(LaunchrError::InsufficientOutput)
    } else if price_after > u64::MAX || price_before > u64::MAX || impact > u64::MAX {
        Err(LaunchrError::MathOverflow)
    } else {
        Ok(
            SwapResult {
                amount_out: tokens_out as u64,
                protocol_fee: floor_sub(total_fee, creator_fee) as u64,
                creator_fee: creator_fee as u64,
                total_fee: total_fee as u64,
                new_sol_reserve: new_sol_reserve as u64,
                new_token_reserve: new_token_reserve as u64,
                price_after: price_after as u64,
                price_impact_bps: impact as u64,
            },
        )
    }
}

/// What a sale of `tokens_in` base units against the given virtual reserves
/// yields.
///
/// The base reserve grows first, the quote reserve becomes
/// `floor(k / new_base)`, and the fee is taken from the difference before it
/// is paid out.
pub open spec fn sell_quote(
    tokens_in: u64,
    sol_reserve: u64,
    token_reserve: u64,
    protocol_fee_bps: u16,
    creator_fee_bps: u16,
) -> Result<SwapResult, LaunchrError> {
    let new_token_reserve = capped_add(token_reserve as int, tokens_in as int);
    let new_sol_reserve = (sol_reserve as int) * (token_reserve as int) / new_token_reserve;
    let sol_out_before_fee = sol_reserve - new_sol_reserve;
    let total_fee = fee_of(sol_out_before_fee, protocol_fee_bps as int);
    let creator_fee = fee_of(sol_out_before_fee, creator_fee_bps as int);
    let sol_out = floor_sub(sol_out_before_fee, total_fee);
    let price_after = price_of(new_sol_reserve, new_token_reserve);
    let price_before = price_of(sol_reserve as int, token_reserve as int);
    let impact = impact_of(price_before, price_after);
    if tokens_in == 0 {
        Err(LaunchrError::TradeTooSmall)
    } else if sol_reserve == 0 || token_reserve == 0 {
        Err(LaunchrError::InvalidReserves)
    } else if sol_out_before_fee == 0 {
        Err(LaunchrError::InsufficientOutput)
    } else if total_fee > u64::MAX || creator_fee > u64::MAX {
        Err(LaunchrError::MathOverflow)
    } else if sol_out < MIN_TRADE_AMOUNT {
        Err(LaunchrError::TradeTooSmall)
    } else if price_after > u64::MAX || price_before > u64::MAX || impact > u64::MAX {
        Err(LaunchrError::MathOverflow)
    } else {
        Ok(
            SwapResult {
                amount_out: sol_out as u64,
                protocol_fee: floor_sub(total_fee, creator_fee) as u64,
                creator_fee: creator_fee as u64,
                total_fee: total_fee as u64,
                new_sol_reserve: new_sol_reserve as u64,
                new_token_reserve: new_token_reserve as u64,
                price_after: price_after as u64,
                price_impact_bps: impact as u64,
            },
        )
    }
}

/// The quote units that must be paid in to receive exactly `tokens_out` base
/// units, fee included and rounded up by one unit.
pub open spec fn sol_for_tokens_quote(
    tokens_out: u64,
    sol_reserve: u64,
    token_reserve: u64,
    protocol_fee_bps: u16,
) -> Result<u64, LaunchrError> {
    let new_token_reserve = token_reserve - tokens_out;
    let new_sol_reserve = (sol_reserve as int) * (token_reserve as int) / new_token_reserve;
    let sol_in_after_fee = floor_sub(new_sol_reserve, sol_reserve as int);
    let sol_in = sol_in_after_fee * (BPS_DENOMINATOR as int) / (BPS_DENOMINATOR - protocol_fee_bps);
    if tokens_out == 0 || tokens_out >= token_reserve {
        Err(LaunchrError::InvalidAmount)
    } else if sol_reserve == 0 {
        Err(LaunchrError::InvalidReserves)
    } else if new_sol_reserve > u64::MAX || protocol_fee_bps >= BPS_DENOMINATOR || sol_in
        > u64::MAX {
        Err(LaunchrError::MathOverflow)
    } else {
        Ok(capped_add(sol_in, 1) as u64)
    }
}

/// With a positive first reserve that only grows, `floor(k / new)` stays at
/// or below the second reserve.
proof fn lemma_other_side_shrinks(grown: int, other: int, new_grown: int)
    requires
        0 < grown <= new_grown,
        0 <= other,
    ensures
        0 <= grown * other / new_grown <= other,
{
    lemma_mul_nonnegative(grown, other);
    lemma_div_pos_is_pos(grown * other, new_grown);
    lemma_div_is_ordered_by_denominator(grown * other, grown, new_grown);
    lemma_div_multiples_vanish(other, grown);
    lemma_mul_is_commutative(grown, other);
}

/// The exact scaled price of a pair of reserves.
fn price_wide(sol_reserve: u64, token_reserve: u64) -> (r: u128)
    ensures
        r == price_of(sol_reserve as int, token_reserve as int),
{
    if token_reserve == 0 {
        return 0;
    }
    mul_div(sol_reserve, PRICE_PRECISION, token_reserve)
}

/// The exact price impact of a move between two prices.
fn impact_wide(price_before: u64, price_after: u64) -> (r: u128)
    ensures
        r == impact_of(price_before as int, price_after as int),
{
    if price_before > 0 {
        let moved: u64 = if price_after >= price_before {
            price_after - price_before
        } else {
            price_before - price_after
        };
        mul_div(moved, BPS_DENOMINATOR, price_before)
    } else {
        0
    }
}

/// Quote a buy: the base units received for `sol_in` quote units.
///
/// Rejects an input below [`MIN_TRADE_AMOUNT`], an empty reserve, an input
/// that the fee eats up, and a trade that would hand out nothing.
pub fn calculate_buy(
    sol_in: u64,
    sol_reserve: u64,
    token_reserve: u64,
    protocol_fee_bps: u16,
    creator_fee_bps: u16,
) -> (r: Result<SwapResult, LaunchrError>)
    ensures
        r == buy_quote(sol_in, sol_reserve, token_reserve, protocol_fee_bps, creator_fee_bps),
{
    if sol_in < MIN_TRADE_AMOUNT {
        return Err(LaunchrError::TradeTooSmall);
    }
    if sol_reserve == 0 || token_reserve == 0 {
        return Err(LaunchrError::InvalidReserves);
    }
    let total_fee_wide: u128 = mul_div(sol_in, protocol_fee_bps as u64, BPS_DENOMINATOR);
    let creator_fee_wide: u128 = mul_div(sol_in, creator_fee_bps as u64, BPS_DENOMINATOR);
    if total_fee_wide > u64::MAX as u128 || creator_fee_wide > u64::MAX as u128 {
        return Err(LaunchrError::MathOverflow);
    }
    let total_fee: u64 = total_fee_wide as u64;
    let creator_fee: u64 = creator_fee_wide as u64;
    let protocol_fee: u64 = total_fee.saturating_sub(creator_fee);

    let sol_in_after_fee: u64 = sol_in.saturating_sub(total_fee);
    if sol_in_after_fee == 0 {
        return Err(LaunchrError::TradeTooSmall);
    }
    let k: u128 = wide_mul(sol_reserve, token_reserve);
    let new_sol_reserve: u64 = sol_reserve.saturating_add(sol_in_after_fee);
    proof {
        lemma_other_side_shrinks(sol_reserve as int, token_reserve as int, new_sol_reserve as int);
    }
    let new_token_reserve: u64 = (k / (new_sol_reserve as u128)) as u64;
    let tokens_out: u64 = token_reserve - new_token_reserve;
    if tokens_out == 0 {
        return Err(LaunchrError::InsufficientOutput);
    }
    let price_after: u128 = price_wide(new_sol_reserve, new_token_reserve);
    let price_before: u128 = price_wide(sol_reserve, token_reserve);
    if price_after > u64::MAX as u128 || price_before > u64::MAX as u128 {
        return Err(LaunchrError::MathOverflow);
    }
    let impact: u128 = impact_wide(price_before as u64, price_after as u64);
    if impact > u64::MAX as u128 {
        return Err(LaunchrError::MathOverflow);
    }
    Ok(
        SwapResult {
            amount_out: tokens_out,
            protocol_fee,
            creator_fee,
            total_fee,
            new_sol_reserve,
            new_token_reserve,
            price_after: price_after as u64,
            price_impact_bps: impact as u64,
        },
    )
}

/// Quote a sale: the quote units paid out for `tokens_in` base units.
///
/// Rejects a zero input, an empty reserve, a sale that moves no quote units,
/// and a payout below [`MIN_TRADE_AMOUNT`] after the fee.
pub fn calculate_sell(
    tokens_in: u64,
    sol_reserve: u64,
    token_reserve: u64,
    protocol_fee_bps: u16,
    creator_fee_bps: u16,
) -> (r: Result<SwapResult, LaunchrError>)
    ensures
        r == sell_quote(tokens_in, sol_reserve, token_reserve, protocol_fee_bps, creator_fee_bps),
{
    if tokens_in == 0 {
        return Err(LaunchrError::TradeTooSmall);
    }
    if sol_reserve == 0 || token_reserve == 0 {
        return Err(LaunchrError::InvalidReserves);
    }
    let k: u128 = wide_mul(sol_reserve, token_reserve);
    let new_token_reserve: u64 = token_reserve.saturating_add(tokens_in);
    proof {
        lemma_other_side_shrinks(token_reserve as int, sol_reserve as int, new_token_reserve as int);
        lemma_mul_is_commutative(token_reserve as int, sol_reserve as int);
    }
    let new_sol_reserve: u64 = (k / (new_token_reserve as u128)) as u64;
    let sol_out_before_fee: u64 = sol_reserve - new_sol_reserve;
    if sol_out_before_fee == 0 {
        return Err(LaunchrError::InsufficientOutput);
    }
    let total_fee_wide: u128 = mul_div(
        sol_out_before_fee,
        protocol_fee_bps as u64,
        BPS_DENOMINATOR,
    );
    let creator_fee_wide: u128 = mul_div(
        sol_out_before_fee,
        creator_fee_bps as u64,
        BPS_DENOMINATOR,
    );
    if total_fee_wide > u64::MAX as u128 || creator_fee_wide > u64::MAX as u128 {
        return Err(LaunchrError::MathOverflow);
    }
    let total_fee: u64 = total_fee_wide as u64;
    let creator_fee: u64 = creator_fee_wide as u64;
    let protocol_fee: u64 = total_fee.saturating_sub(creator_fee);

    let sol_out: u64 = sol_out_before_fee.saturating_sub(total_fee);
    if sol_out < MIN_TRADE_AMOUNT {
        return Err(LaunchrError::TradeTooSmall);
    }
    let price_after: u128 = price_wide(new_sol_reserve, new_token_reserve);
    let price_before: u128 = price_wide(sol_reserve, token_reserve);
    if price_after > u64::MAX as u128 || price_before > u64::MAX as u128 {
        return Err(LaunchrError::MathOverflow);
    }
    let impact: u128 = impact_wide(price_before as u64, price_after as u64);
    if impact > u64::MAX as u128 {
        return Err(LaunchrError::MathOverflow);
    }
    Ok(
        SwapResult {
            amount_out: sol_out,
            protocol_fee,
            creator_fee,
            total_fee,
            new_sol_reserve,
            new_token_reserve,
            price_after: price_after as u64,
            price_impact_bps: impact as u64,
        },
    )
}

/// The current price of a pair of reserves, scaled by [`PRICE_PRECISION`]:
/// zero when there is no base, capped at the largest 64-bit value.
pub fn calculate_price(sol_reserve: u64, token_reserve: u64) -> (price: u64)
    ensures
        price == capped(price_of(sol_reserve as int, token_reserve as int)),
{
    let wide: u128 = price_wide(sol_reserve, token_reserve);
    if wide > u64::MAX as u128 {
        u64::MAX
    } else {
        wide as u64
    }
}

/// The quote units needed to receive exactly `tokens_out` base units.
///
/// Rejects an output of zero or of the whole base reserve and beyond, an
/// empty quote reserve, and a fee rate of 100% or more.
pub fn calculate_sol_for_tokens(
    tokens_out: u64,
    sol_reserve: u64,
    token_reserve: u64,
    protocol_fee_bps: u16,
    _creator_fee_bps: u16,
) -> (r: Result<u64, LaunchrError>)
    ensures
        r == sol_for_tokens_quote(tokens_out, sol_reserve, token_reserve, protocol_fee_bps),
{
    if tokens_out == 0 || tokens_out >= token_reserve {
        return Err(LaunchrError::InvalidAmount);
    }
    if sol_reserve == 0 {
        return Err(LaunchrError::InvalidReserves);
    }
    let k: u128 = wide_mul(sol_reserve, token_reserve);
    let new_token_reserve: u64 = token_reserve - tokens_out;
    let new_sol_wide: u128 = k / (new_token_reserve as u128);
    if new_sol_wide > u64::MAX as u128 {
        return Err(LaunchrError::MathOverflow);
    }
    let new_sol_reserve: u64 = new_sol_wide as u64;
    let sol_in_after_fee: u64 = new_sol_reserve.saturating_sub(sol_reserve);
    if protocol_fee_bps as u64 >= BPS_DENOMINATOR {
        return Err(LaunchrError::MathOverflow);
    }
    let keep_bps: u64 = BPS_DENOMINATOR - protocol_fee_bps as u64;
    let sol_in: u128 = mul_div(sol_in_after_fee, BPS_DENOMINATOR, keep_bps);
    if sol_in > u64::MAX as u128 {
        return Err(LaunchrError::MathOverflow);
    }
    Ok((sol_in as u64).saturating_add(1))
}

/// The base units received for exactly `sol_in` quote units: the amount of
/// the buy quote.
pub fn calculate_tokens_for_sol(
    sol_in: u64,
    sol_reserve: u64,
    token_reserve: u64,
    protocol_fee_bps: u16,
    creator_fee_bps: u16,
) -> (r: Result<u64, LaunchrError>)
    ensures
        r == match buy_quote(sol_in, sol_reserve, token_reserve, protocol_fee_bps, creator_fee_bps) {
            Ok(quote) => Ok::<u64, LaunchrError>(quote.amount_out),
            Err(e) => Err(e),
        },
{
    match calculate_buy(sol_in, sol_reserve, token_reserve, protocol_fee_bps, creator_fee_bps) {
        Ok(result) => Ok(result.amount_out),
        Err(e) => Err(e),
    }
}

} // verus!
