//! What holds of every quote of the curve: the product of the reserves is
//! kept up to rounding, and a trade moves the price in its own direction.

use vstd::prelude::*;
use vstd::arithmetic::div_mod::*;
use vstd::arithmetic::mul::*;
use crate::math::bonding_curve::{
    buy_quote, capped_add, fee_of, floor_sub, price_of, sell_quote, sol_for_tokens_quote,
    PRICE_PRECISION,
};

verus! {

/// The quote reserve that a buy leaves behind.
pub open spec fn sol_reserve_after_buy(sol_in: u64, sol_reserve: u64, protocol_fee_bps: u16) -> int {
    capped_add(
        sol_reserve as int,
        floor_sub(sol_in as int, fee_of(sol_in as int, protocol_fee_bps as int)),
    )
}

/// The base reserve that a sale leaves behind.
pub open spec fn token_reserve_after_sell(tokens_in: u64, token_reserve: u64) -> int {
    capped_add(token_reserve as int, tokens_in as int)
}

/// `floor(k / d) * d` lies in `(k - d, k]`, and misses `k` by `k % d`.
proof fn lemma_floor_product(k: int, d: int)
    requires
        0 <= k,
        0 < d,
    ensures
        d * (k / d) == k - k % d,
        0 <= k % d < d,
{
    lemma_fundamental_div_mod(k, d);
    lemma_mod_bound(k, d);
}

/// A successful buy moves both reserves: the quote side grows, the base side
/// shrinks, and the new base side is `floor(k / new_quote)`.
pub proof fn lemma_buy_moves_reserves(
    sol_in: u64,
    sol_reserve: u64,
    token_reserve: u64,
    protocol_fee_bps: u16,
    creator_fee_bps: u16,
)
    requires
        buy_quote(sol_in, sol_reserve, token_reserve, protocol_fee_bps, creator_fee_bps) is Ok,
    ensures
        ({
            let quote = buy_quote(
                sol_in,
                sol_reserve,
                token_reserve,
                protocol_fee_bps,
                creator_fee_bps,
            )->Ok_0;
            &&& quote.new_sol_reserve == sol_reserve_after_buy(sol_in, sol_reserve, protocol_fee_bps)
            &&& quote.new_token_reserve == (sol_reserve as int) * (token_reserve as int)
                / (quote.new_sol_reserve as int)
            &&& sol_reserve < quote.new_sol_reserve
            &&& quote.new_token_reserve < token_reserve
            &&& quote.amount_out == token_reserve - quote.new_token_reserve
            &&& quote.price_after == price_of(
                quote.new_sol_reserve as int,
                quote.new_token_reserve as int,
            )
        }),
{
    let s = sol_reserve as int;
    let t = token_reserve as int;
    let new_s = sol_reserve_after_buy(sol_in, sol_reserve, protocol_fee_bps);
    assert(s <= new_s <= u64::MAX);
    lemma_mul_nonnegative(s, t);
    lemma_div_pos_is_pos(s * t, new_s);
    lemma_div_is_ordered_by_denominator(s * t, s, new_s);
    lemma_div_multiples_vanish(t, s);
    lemma_mul_is_commutative(s, t);
    assert(s * t / new_s <= t);
    if new_s == s {
        assert(s * t / new_s == t);
    }
    let new_t = s * t / new_s;
    if new_t > 0 {
        lemma_mul_nonnegative(new_s, PRICE_PRECISION as int);
        lemma_div_pos_is_pos(new_s * (PRICE_PRECISION as int), new_t);
    }
}

/// A successful sale moves both reserves: the base side grows, the quote side
/// shrinks, and the new quote side is `floor(k / new_base)`.
pub proof fn lemma_sell_moves_reserves(
    tokens_in: u64,
    sol_reserve: u64,
    token_reserve: u64,
    protocol_fee_bps: u16,
    creator_fee_bps: u16,
)
    requires
        sell_quote(tokens_in, sol_reserve, token_reserve, protocol_fee_bps, creator_fee_bps) is Ok,
    ensures
        ({
            let quote = sell_quote(
                tokens_in,
                sol_reserve,
                token_reserve,
                protocol_fee_bps,
                creator_fee_bps,
            )->Ok_0;
            &&& quote.new_token_reserve == token_reserve_after_sell(tokens_in, token_reserve)
            &&& quote.new_sol_reserve == (sol_reserve as int) * (token_reserve as int)
                / (quote.new_token_reserve as int)
            &&& token_reserve < quote.new_token_reserve
            &&& quote.new_sol_reserve < sol_reserve
            &&& quote.price_after == price_of(
                quote.new_sol_reserve as int,
                quote.new_token_reserve as int,
            )
        }),
{
    let s = sol_reserve as int;
    let t = token_reserve as int;
    let new_t = token_reserve_after_sell(tokens_in, token_reserve);
    assert(t <= new_t <= u64::MAX);
    lemma_mul_nonnegative(s, t);
    lemma_div_pos_is_pos(s * t, new_t);
    lemma_div_is_ordered_by_denominator(s * t, t, new_t);
    lemma_div_multiples_vanish(s, t);
    lemma_mul_is_commutative(s, t);
    assert(s * t / new_t <= s);
    if new_t == t {
        assert(s * t / new_t == s);
    }
    let new_s = s * t / new_t;
    lemma_mul_nonnegative(new_s, PRICE_PRECISION as int);
    lemma_div_pos_is_pos(new_s * (PRICE_PRECISION as int), new_t);
}

/// A buy keeps the product of the reserves up to rounding: the product after
/// the trade never exceeds the product before, and falls short of it by the
/// remainder of dividing the old product by the new quote reserve, which is
/// less than that reserve. The fee never enters the reserves, so this holds
/// at every fee rate, a fee-free trade included.
pub proof fn lemma_buy_keeps_product(
    sol_in: u64,
    sol_reserve: u64,
    token_reserve: u64,
    protocol_fee_bps: u16,
    creator_fee_bps: u16,
)
    requires
        buy_quote(sol_in, sol_reserve, token_reserve, protocol_fee_bps, creator_fee_bps) is Ok,
    ensures
        ({
            let quote = buy_quote(
                sol_in,
                sol_reserve,
                token_reserve,
                protocol_fee_bps,
                creator_fee_bps,
            )->Ok_0;
            let before = sol_reserve * token_reserve;
            let after = quote.new_sol_reserve * quote.new_token_reserve;
            &&& after <= before
            &&& before - after == before % (quote.new_sol_reserve as int)
            &&& before - after < quote.new_sol_reserve
        }),
{
    lemma_buy_moves_reserves(sol_in, sol_reserve, token_reserve, protocol_fee_bps, creator_fee_bps);
    let s = sol_reserve as int;
    let t = token_reserve as int;
    let new_s = sol_reserve_after_buy(sol_in, sol_reserve, protocol_fee_bps);
    lemma_mul_nonnegative(s, t);
    lemma_floor_product(s * t, new_s);
}

/// A sale keeps the product of the reserves up to rounding: the product after
/// the trade never exceeds the product before, and falls short of it by the
/// remainder of dividing the old product by the new base reserve, which is
/// less than that reserve.
pub proof fn lemma_sell_keeps_product(
    tokens_in: u64,
    sol_reserve: u64,
    token_reserve: u64,
    protocol_fee_bps: u16,
    creator_fee_bps: u16,
)
    requires
        sell_quote(tokens_in, sol_reserve, token_reserve, protocol_fee_bps, creator_fee_bps) is Ok,
    ensures
        ({
            let quote = sell_quote(
                tokens_in,
                sol_reserve,
                token_reserve,
                protocol_fee_bps,
                creator_fee_bps,
            )->Ok_0;
            let before = sol_reserve * token_reserve;
            let after = quote.new_sol_reserve * quote.new_token_reserve;
            &&& after <= before
            &&& before - after == before % (quote.new_token_reserve as int)
            &&& before - after < quote.new_token_reserve
        }),
{
    lemma_sell_moves_reserves(
        tokens_in,
        sol_reserve,
        token_reserve,
        protocol_fee_bps,
        creator_fee_bps,
    );
    let s = sol_reserve as int;
    let t = token_reserve as int;
    let new_t = token_reserve_after_sell(tokens_in, token_reserve);
    lemma_mul_nonnegative(s, t);
    lemma_floor_product(s * t, new_t);
    lemma_mul_is_commutative(new_t, s * t / new_t);
}

/// A fee-free buy keeps the product of the reserves within 0.1%, wherever the
/// rounding remainder is itself within 0.1% of the product.
pub proof fn lemma_fee_free_buy_within_tenth_percent(
    sol_in: u64,
    sol_reserve: u64,
    token_reserve: u64,
    creator_fee_bps: u16,
)
    requires
        buy_quote(sol_in, sol_reserve, token_reserve, 0, creator_fee_bps) is Ok,
        ((sol_reserve * token_reserve) % sol_reserve_after_buy(sol_in, sol_reserve, 0)) * 1000
            <= sol_reserve * token_reserve,
    ensures
        ({
            let quote = buy_quote(sol_in, sol_reserve, token_reserve, 0, creator_fee_bps)->Ok_0;
            let before = sol_reserve * token_reserve;
            let after = quote.new_sol_reserve * quote.new_token_reserve;
            &&& after <= before
            &&& (before - after) * 1000 <= before
        }),
{
    lemma_buy_keeps_product(sol_in, sol_reserve, token_reserve, 0, creator_fee_bps);
    lemma_buy_moves_reserves(sol_in, sol_reserve, token_reserve, 0, creator_fee_bps);
}

/// A fee-free sale keeps the product of the reserves within 0.1%, wherever
/// the rounding remainder is itself within 0.1% of the product.
pub proof fn lemma_fee_free_sell_within_tenth_percent(
    tokens_in: u64,
    sol_reserve: u64,
    token_reserve: u64,
    creator_fee_bps: u16,
)
    requires
        sell_quote(tokens_in, sol_reserve, token_reserve, 0, creator_fee_bps) is Ok,
        ((sol_reserve * token_reserve) % token_reserve_after_sell(tokens_in, token_reserve))
            * 1000 <= sol_reserve * token_reserve,
    ensures
        ({
            let quote = sell_quote(tokens_in, sol_reserve, token_reserve, 0, creator_fee_bps)->Ok_0;
            let before = sol_reserve * token_reserve;
            let after = quote.new_sol_reserve * quote.new_token_reserve;
            &&& after <= before
            &&& (before - after) * 1000 <= before
        }),
{
    lemma_sell_keeps_product(tokens_in, sol_reserve, token_reserve, 0, creator_fee_bps);
    lemma_sell_moves_reserves(tokens_in, sol_reserve, token_reserve, 0, creator_fee_bps);
}

/// Against deep reserves every trade keeps the product within 0.1%: a buy
/// where the old product is at least a thousand times the new quote reserve,
/// and a sale where it is at least a thousand times the new base reserve.
pub proof fn lemma_deep_reserves_keep_product(
    amount: u64,
    sol_reserve: u64,
    token_reserve: u64,
    protocol_fee_bps: u16,
    creator_fee_bps: u16,
)
    ensures
        buy_quote(amount, sol_reserve, token_reserve, protocol_fee_bps, creator_fee_bps) matches Ok(
            quote,
        ) ==> (1000 * quote.new_sol_reserve <= sol_reserve * token_reserve ==> (sol_reserve
            * token_reserve - quote.new_sol_reserve * quote.new_token_reserve) * 1000 < sol_reserve
            * token_reserve),
        sell_quote(amount, sol_reserve, token_reserve, protocol_fee_bps, creator_fee_bps) matches Ok(
            quote,
        ) ==> (1000 * quote.new_token_reserve <= sol_reserve * token_reserve ==> (sol_reserve
            * token_reserve - quote.new_sol_reserve * quote.new_token_reserve) * 1000 < sol_reserve
            * token_reserve),
{
    if buy_quote(amount, sol_reserve, token_reserve, protocol_fee_bps, creator_fee_bps) is Ok {
        lemma_buy_keeps_product(amount, sol_reserve, token_reserve, protocol_fee_bps, creator_fee_bps);
    }
    if sell_quote(amount, sol_reserve, token_reserve, protocol_fee_bps, creator_fee_bps) is Ok {
        lemma_sell_keeps_product(
            amount,
            sol_reserve,
            token_reserve,
            protocol_fee_bps,
            creator_fee_bps,
        );
    }
}

/// `floor(a / b) > m` exactly when `a >= b * (m + 1)`, for positive `b`.
proof fn lemma_floor_above(a: int, b: int, m: int)
    requires
        0 <= a,
        0 < b,
    ensures
        a / b > m <==> a >= b * (m + 1),
{
    lemma_fundamental_div_mod(a, b);
    lemma_mod_bound(a, b);
    let q = a / b;
    assert(a == b * q + a % b);
    if q > m {
        assert(b * q >= b * (m + 1)) by (nonlinear_arith)
            requires
                q >= m + 1,
                b > 0,
        ;
    } else {
        assert(b * (q + 1) <= b * (m + 1)) by (nonlinear_arith)
            requires
                q + 1 <= m + 1,
                b > 0,
        ;
        assert(b * (q + 1) == b * q + b) by (nonlinear_arith);
    }
}

/// A buy raises the price. The exact ratio of the reserves rises strictly.
/// The scaled integer price never falls while base units remain, and it
/// rises strictly exactly when the new reserves carry a price at least one
/// scaled unit above the old one.
pub proof fn lemma_buy_raises_price(
    sol_in: u64,
    sol_reserve: u64,
    token_reserve: u64,
    protocol_fee_bps: u16,
    creator_fee_bps: u16,
)
    requires
        buy_quote(sol_in, sol_reserve, token_reserve, protocol_fee_bps, creator_fee_bps) is Ok,
    ensures
        ({
            let quote = buy_quote(
                sol_in,
                sol_reserve,
                token_reserve,
                protocol_fee_bps,
                creator_fee_bps,
            )->Ok_0;
            let price_before = price_of(sol_reserve as int, token_reserve as int);
            &&& quote.new_sol_reserve * token_reserve > sol_reserve * quote.new_token_reserve
            &&& quote.new_token_reserve > 0 ==> quote.price_after >= price_before
            &&& quote.new_token_reserve > 0 ==> (quote.price_after > price_before
                <==> quote.new_sol_reserve * PRICE_PRECISION >= quote.new_token_reserve * (
            price_before + 1))
        }),
{
    lemma_buy_moves_reserves(sol_in, sol_reserve, token_reserve, protocol_fee_bps, creator_fee_bps);
    let quote = buy_quote(sol_in, sol_reserve, token_reserve, protocol_fee_bps, creator_fee_bps)->Ok_0;
    let s = sol_reserve as int;
    let t = token_reserve as int;
    let new_s = quote.new_sol_reserve as int;
    let new_t = quote.new_token_reserve as int;
    let p = PRICE_PRECISION as int;
    assert(new_s * t > s * new_t) by (nonlinear_arith)
        requires
            0 < s < new_s,
            0 <= new_t < t,
    ;
    if new_t > 0 {
        assert(s * p <= new_s * p) by (nonlinear_arith)
            requires
                s <= new_s,
                p > 0,
        ;
        lemma_mul_nonnegative(s, p);
        lemma_div_is_ordered(s * p, new_s * p, t);
        lemma_div_is_ordered_by_denominator(new_s * p, new_t, t);
        lemma_floor_above(new_s * p, new_t, price_of(s, t));
    }
}

/// A sale lowers the price. The exact ratio of the reserves falls strictly.
/// The scaled integer price never rises, and it falls strictly exactly when
/// the new reserves carry a price below the old scaled one.
pub proof fn lemma_sell_lowers_price(
    tokens_in: u64,
    sol_reserve: u64,
    token_reserve: u64,
    protocol_fee_bps: u16,
    creator_fee_bps: u16,
)
    requires
        sell_quote(tokens_in, sol_reserve, token_reserve, protocol_fee_bps, creator_fee_bps) is Ok,
    ensures
        ({
            let quote = sell_quote(
                tokens_in,
                sol_reserve,
                token_reserve,
                protocol_fee_bps,
                creator_fee_bps,
            )->Ok_0;
            let price_before = price_of(sol_reserve as int, token_reserve as int);
            &&& quote.new_sol_reserve * token_reserve < sol_reserve * quote.new_token_reserve
            &&& quote.price_after <= price_before
            &&& quote.price_after < price_before <==> quote.new_sol_reserve * PRICE_PRECISION
                < quote.new_token_reserve * price_before
        }),
{
    lemma_sell_moves_reserves(
        tokens_in,
        sol_reserve,
        token_reserve,
        protocol_fee_bps,
        creator_fee_bps,
    );
    let quote = sell_quote(
        tokens_in,
        sol_reserve,
        token_reserve,
        protocol_fee_bps,
        creator_fee_bps,
    )->Ok_0;
    let s = sol_reserve as int;
    let t = token_reserve as int;
    let new_s = quote.new_sol_reserve as int;
    let new_t = quote.new_token_reserve as int;
    let p = PRICE_PRECISION as int;
    assert(new_s * t < s * new_t) by (nonlinear_arith)
        requires
            0 <= new_s < s,
            0 < t < new_t,
    ;
    assert(new_s * p <= s * p) by (nonlinear_arith)
        requires
            new_s <= s,
            p > 0,
    ;
    lemma_mul_nonnegative(new_s, p);
    lemma_div_is_ordered(new_s * p, s * p, new_t);
    lemma_mul_nonnegative(s, p);
    lemma_div_is_ordered_by_denominator(s * p, t, new_t);
    lemma_floor_above(new_s * p, new_t, price_of(s, t) - 1);
}

/// The quote units that `sol_for_tokens_quote` asks for do buy the base units
/// wanted, and more: wherever the buy goes through without filling the quote
/// reserve to the top, it hands out more than was wanted.
pub proof fn lemma_sol_for_tokens_suffices(
    tokens_out: u64,
    sol_reserve: u64,
    token_reserve: u64,
    protocol_fee_bps: u16,
    creator_fee_bps: u16,
)
    requires
        sol_for_tokens_quote(tokens_out, sol_reserve, token_reserve, protocol_fee_bps) matches Ok(
            sol_in,
        ) && sol_in < u64::MAX && (buy_quote(
            sol_in,
            sol_reserve,
            token_reserve,
            protocol_fee_bps,
            creator_fee_bps,
        ) matches Ok(quote) && quote.new_sol_reserve < u64::MAX),
    ensures
        buy_quote(
            sol_for_tokens_quote(tokens_out, sol_reserve, token_reserve, protocol_fee_bps)->Ok_0,
            sol_reserve,
            token_reserve,
            protocol_fee_bps,
            creator_fee_bps,
        )->Ok_0.amount_out > tokens_out,
{
    let sol_in = sol_for_tokens_quote(tokens_out, sol_reserve, token_reserve, protocol_fee_bps)->Ok_0;
    lemma_buy_moves_reserves(sol_in, sol_reserve, token_reserve, protocol_fee_bps, creator_fee_bps);
    let quote = buy_quote(sol_in, sol_reserve, token_reserve, protocol_fee_bps, creator_fee_bps)->Ok_0;
    let s = sol_reserve as int;
    let t = token_reserve as int;
    let k = s * t;
    let left = t - tokens_out;
    let wanted_reserve = k / left;
    let after_fee = wanted_reserve - s;
    let keep = 10000 - protocol_fee_bps;
    let x = sol_in as int;
    let fee = fee_of(x, protocol_fee_bps as int);
    lemma_mul_nonnegative(s, t);

    // The reserve wanted is at least the reserve there is.
    assert(wanted_reserve >= s) by {
        lemma_div_is_ordered_by_denominator(k, left, t);
        lemma_div_multiples_vanish(s, t);
        lemma_mul_is_commutative(s, t);
    }
    // The payment keeps more than the reserve wants after the fee.
    assert(x == after_fee * 10000 / keep + 1);
    assert(x * keep > after_fee * 10000) by {
        lemma_fundamental_div_mod(after_fee * 10000, keep);
        lemma_mod_bound(after_fee * 10000, keep);
        lemma_mul_is_distributive_add(keep, after_fee * 10000 / keep, 1);
        lemma_mul_is_commutative(x, keep);
    }
    lemma_mul_nonnegative(x, protocol_fee_bps as int);
    lemma_fundamental_div_mod(x * protocol_fee_bps, 10000);
    lemma_mod_bound(x * protocol_fee_bps, 10000);
    assert(10000 * fee <= x * protocol_fee_bps);
    assert(x * keep == x * 10000 - x * protocol_fee_bps) by {
        lemma_mul_is_distributive_sub(x, 10000, protocol_fee_bps as int);
    }
    assert(x - fee > after_fee);
    // So the new reserve passes the reserve wanted, and the base side falls
    // below what was to be left.
    let new_s = quote.new_sol_reserve as int;
    assert(new_s == s + (x - fee));
    assert(new_s >= wanted_reserve + 1);
    assert(k < new_s * left) by {
        lemma_fundamental_div_mod(k, left);
        lemma_mod_bound(k, left);
        assert(k < left * (wanted_reserve + 1)) by {
            lemma_mul_is_distributive_add(left, wanted_reserve, 1);
        }
        lemma_mul_inequality(wanted_reserve + 1, new_s, left);
        lemma_mul_is_commutative(left, wanted_reserve + 1);
    }
    lemma_multiply_divide_lt(k, new_s, left);
}

} // verus!
