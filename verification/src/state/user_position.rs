//! The position of one user in one launch: what was bought and sold, what it
//! cost, and what it is worth.
//!
//! Totals saturate. Profit and loss are signed 64-bit values; a value outside
//! that range is reported as the nearest bound.

use vstd::prelude::*;
use vstd::arithmetic::div_mod::*;
use vstd::arithmetic::mul::*;
use crate::address::{zeros, Address};
use crate::error::LaunchrError;
use crate::math::arith::{lemma_wide_product_fits, mul_div};
use crate::math::bonding_curve::{capped, capped_add, floor_sub, PRICE_PRECISION};

verus! {

/// User position in a specific launch.
#[derive(Clone, Copy, Debug, PartialEq, Eq)]
pub struct UserPosition {
    /// Launch this position belongs to.
    pub launch: Address,
    /// User wallet address.
    pub user: Address,
    /// Total base units bought by this user.
    pub tokens_bought: u64,
    /// Total base units sold by this user.
    pub tokens_sold: u64,
    /// Current balance in base units.
    pub token_balance: u64,
    /// Total quote units spent on buys.
    pub sol_spent: u64,
    /// Total quote units received from sells.
    pub sol_received: u64,
    /// Time of the first trade.
    pub first_trade_at: i64,
    /// Time of the last trade.
    pub last_trade_at: i64,
    /// Number of buys.
    pub buy_count: u32,
    /// Number of sells.
    pub sell_count: u32,
    /// Average buy price, quote units per base unit scaled by 1e9.
    pub avg_buy_price: u64,
    /// Cost basis in quote units.
    pub cost_basis: u64,
    /// Bump seed of the record's address.
    pub bump: u8,
    /// Reserved for future use.
    pub _reserved: [u8; 32],
}

impl Default for UserPosition {
    fn default() -> (r: Self)
        ensures
            r.launch@ == zeros(32),
            r.user@ == zeros(32),
            r.tokens_bought == 0,
            r.tokens_sold == 0,
            r.token_balance == 0,
            r.sol_spent == 0,
            r.sol_received == 0,
            r.first_trade_at == 0,
            r.last_trade_at == 0,
            r.buy_count == 0,
            r.sell_count == 0,
            r.avg_buy_price == 0,
            r.cost_basis == 0,
            r.bump == 0,
            r._reserved@ == zeros(32),
    {
        let r = UserPosition {
            launch: Address::default(),
            user: Address::default(),
            tokens_bought: 0,
            tokens_sold: 0,
            token_balance: 0,
            sol_spent: 0,
            sol_received: 0,
            first_trade_at: 0,
            last_trade_at: 0,
            buy_count: 0,
            sell_count: 0,
            avg_buy_price: 0,
            cost_basis: 0,
            bump: 0,
            _reserved: [0u8; 32],
        };
        assert(r._reserved@ =~= zeros(32));
        r
    }
}

/// The nearest signed 64-bit value.
pub open spec fn clamp_i64(x: int) -> int {
    if x > i64::MAX {
        i64::MAX as int
    } else if x < i64::MIN {
        i64::MIN as int
    } else {
        x
    }
}

/// `x + 1`, or the largest 32-bit value.
pub open spec fn next_count(x: u32) -> u32 {
    if x == u32::MAX {
        u32::MAX
    } else {
        (x + 1) as u32
    }
}

/// The quotient rounded toward zero, for a positive divisor.
pub open spec fn div_toward_zero(x: int, d: int) -> int {
    if x >= 0 {
        x / d
    } else {
        -((-x) / d)
    }
}

/// The average price of a balance: `floor(cost_basis * 1e9 / balance)`,
/// capped at 64 bits.
pub open spec fn average_price(cost_basis: int, token_balance: int) -> int {
    capped(cost_basis * (PRICE_PRECISION as int) / token_balance)
}

/// The part of the cost basis that a sale of `tokens` gives up: the cost
/// basis times the sold share of everything ever bought, the share taken in
/// billionths and rounded down.
pub open spec fn cost_reduction(cost_basis: int, tokens: int, tokens_bought: int) -> int {
    cost_basis * (tokens * (PRICE_PRECISION as int) / tokens_bought) / (PRICE_PRECISION as int)
}

/// The nearest signed 64-bit value.
fn clamp_to_i64(x: i128) -> (r: i64)
    ensures
        r == clamp_i64(x as int),
{
    if x > i64::MAX as i128 {
        i64::MAX
    } else if x < i64::MIN as i128 {
        i64::MIN
    } else {
        x as i64
    }
}

/// The average price of a positive balance.
fn average_price_of(cost_basis: u64, token_balance: u64) -> (r: u64)
    requires
        token_balance > 0,
    ensures
        r == average_price(cost_basis as int, token_balance as int),
{
    let wide: u128 = mul_div(cost_basis, PRICE_PRECISION, token_balance);
    if wide > u64::MAX as u128 {
        u64::MAX
    } else {
        wide as u64
    }
}

/// The cost basis that is left after a sale of `tokens`.
fn reduced_cost_basis(cost_basis: u64, tokens: u64, tokens_bought: u64) -> (r: u64)
    requires
        tokens_bought > 0,
    ensures
        r == floor_sub(
            cost_basis as int,
            cost_reduction(cost_basis as int, tokens as int, tokens_bought as int),
        ),
{
    let sold_ratio: u128 = mul_div(tokens, PRICE_PRECISION, tokens_bought);
    let scale: u128 = PRICE_PRECISION as u128;
    proof {
        lemma_wide_product_fits(tokens, PRICE_PRECISION);
        lemma_div_pos_is_pos((tokens as int) * (PRICE_PRECISION as int), tokens_bought as int);
        lemma_mul_nonnegative(cost_basis as int, sold_ratio as int);
        lemma_div_pos_is_pos((cost_basis as int) * (sold_ratio as int), scale as int);
    }
    match (cost_basis as u128).checked_mul(sold_ratio) {
        Some(product) => {
            let reduction: u128 = product / scale;
            if reduction >= cost_basis as u128 {
                0
            } else {
                cost_basis - (reduction as u64)
            }
        },
        None => {
            proof {
                let exact: int = (cost_basis as int) * (sold_ratio as int);
                lemma_div_is_ordered(0x1_0000_0000_0000_0000_0000_0000_0000_0000int, exact, scale as int);
                assert(0x1_0000_0000_0000_0000_0000_0000_0000_0000int / 1_000_000_000
                    >= 0x1_0000_0000_0000_0000);
            }
            0
        },
    }
}

impl UserPosition {
    /// Size of the stored record in bytes, its 8-byte tag included.
    pub const LEN: usize = 185;

    /// The position bound to a launch and a user, with both trade times set
    /// to `timestamp`.
    pub open spec fn initialised(
        self,
        launch: Address,
        user: Address,
        bump: u8,
        timestamp: i64,
    ) -> UserPosition {
        UserPosition {
            launch,
            user,
            bump,
            first_trade_at: timestamp,
            last_trade_at: timestamp,
            ..self
        }
    }

    /// The position after a buy of `tokens` base units for `sol_amount` quote
    /// units. The average price follows the new cost basis and balance, and
    /// stays as it was while the balance is zero.
    pub open spec fn after_buy(self, tokens: u64, sol_amount: u64, timestamp: i64) -> UserPosition {
        let token_balance = capped_add(self.token_balance as int, tokens as int);
        let cost_basis = capped_add(self.cost_basis as int, sol_amount as int);
        UserPosition {
            tokens_bought: capped_add(self.tokens_bought as int, tokens as int) as u64,
            token_balance: token_balance as u64,
            sol_spent: capped_add(self.sol_spent as int, sol_amount as int) as u64,
            cost_basis: cost_basis as u64,
            avg_buy_price: if token_balance > 0 {
                average_price(cost_basis, token_balance) as u64
            } else {
                self.avg_buy_price
            },
            buy_count: next_count(self.buy_count),
            last_trade_at: timestamp,
            ..self
        }
    }

    /// The position after a sale of `tokens` base units for `sol_amount`
    /// quote units, for a sale that the balance covers. The cost basis
    /// shrinks by the sold share of everything ever bought, and the average
    /// price follows what is left, or is zero once nothing is left.
    pub open spec fn after_sell(self, tokens: u64, sol_amount: u64, timestamp: i64) -> UserPosition {
        let token_balance = self.token_balance - tokens;
        let cost_basis = if self.tokens_bought > 0 {
            floor_sub(
                self.cost_basis as int,
                cost_reduction(self.cost_basis as int, tokens as int, self.tokens_bought as int),
            )
        } else {
            self.cost_basis as int
        };
        UserPosition {
            tokens_sold: capped_add(self.tokens_sold as int, tokens as int) as u64,
            token_balance: token_balance as u64,
            sol_received: capped_add(self.sol_received as int, sol_amount as int) as u64,
            cost_basis: cost_basis as u64,
            avg_buy_price: if token_balance > 0 {
                average_price(cost_basis, token_balance) as u64
            } else {
                0
            },
            sell_count: next_count(self.sell_count),
            last_trade_at: timestamp,
            ..self
        }
    }

    /// Profit or loss of the completed sales, before clamping: what was
    /// received, less the sold share of what was spent.
    pub open spec fn realized(self) -> int {
        if self.tokens_bought == 0 {
            0
        } else {
            self.sol_received - self.sol_spent * self.tokens_sold / (self.tokens_bought as int)
        }
    }

    /// Profit or loss of the balance at a price, before clamping: the value
    /// of the balance, less its cost basis.
    pub open spec fn unrealized(self, current_price: u64) -> int {
        if self.token_balance == 0 {
            0
        } else {
            self.token_balance * current_price / (PRICE_PRECISION as int) - self.cost_basis
        }
    }

    /// Total profit or loss at a price: the sum of the two reported values.
    pub open spec fn total(self, current_price: u64) -> int {
        clamp_i64(clamp_i64(self.realized()) + clamp_i64(self.unrealized(current_price)))
    }

    /// Return on what was spent, in basis points, before clamping.
    pub open spec fn roi(self, current_price: u64) -> int {
        if self.sol_spent == 0 {
            0
        } else {
            div_toward_zero(self.total(current_price) * 10000, self.sol_spent as int)
        }
    }

    /// Initialize a new position.
    pub fn init(&mut self, launch: Address, user: Address, bump: u8, timestamp: i64)
        ensures
            *final(self) == old(self).initialised(launch, user, bump, timestamp),
    {
        self.launch = launch;
        self.user = user;
        self.bump = bump;
        self.first_trade_at = timestamp;
        self.last_trade_at = timestamp;
    }

    /// Record a buy transaction.
    pub fn record_buy(&mut self, tokens: u64, sol_amount: u64, timestamp: i64)
        ensures
            *final(self) == old(self).after_buy(tokens, sol_amount, timestamp),
    {
        self.tokens_bought = self.tokens_bought.saturating_add(tokens);
        self.token_balance = self.token_balance.saturating_add(tokens);
        self.sol_spent = self.sol_spent.saturating_add(sol_amount);

        self.cost_basis = self.cost_basis.saturating_add(sol_amount);
        if self.token_balance > 0 {
            self.avg_buy_price = average_price_of(self.cost_basis, self.token_balance);
        }
        self.buy_count = self.buy_count.saturating_add(1);
        self.last_trade_at = timestamp;
    }

    /// Record a sell transaction.
    ///
    /// A sale of more than the balance is rejected with
    /// [`LaunchrError::MathOverflow`] and changes nothing.
    pub fn record_sell(&mut self, tokens: u64, sol_amount: u64, timestamp: i64) -> (r: Result<
        (),
        LaunchrError,
    >)
        ensures
            tokens > old(self).token_balance ==> r == Err::<(), LaunchrError>(
                LaunchrError::MathOverflow,
            ) && *final(self) == *old(self),
            tokens <= old(self).token_balance ==> r is Ok && *final(self) == old(self).after_sell(
                tokens,
                sol_amount,
                timestamp,
            ),
    {
        if tokens > self.token_balance {
            return Err(LaunchrError::MathOverflow);
        }
        self.tokens_sold = self.tokens_sold.saturating_add(tokens);
        self.token_balance = self.token_balance - tokens;
        self.sol_received = self.sol_received.saturating_add(sol_amount);

        if self.tokens_bought > 0 {
            self.cost_basis = reduced_cost_basis(self.cost_basis, tokens, self.tokens_bought);
        }
        if self.token_balance > 0 {
            self.avg_buy_price = average_price_of(self.cost_basis, self.token_balance);
        } else {
            self.avg_buy_price = 0;
        }
        self.sell_count = self.sell_count.saturating_add(1);
        self.last_trade_at = timestamp;
        Ok(())
    }

    /// Calculate the realized profit or loss, from completed sells.
    pub fn realized_pnl(&self) -> (r: i64)
        ensures
            r == clamp_i64(self.realized()),
    {
        if self.tokens_bought == 0 {
            return 0;
        }
        let cost_of_sold: u128 = mul_div(self.sol_spent, self.tokens_sold, self.tokens_bought);
        proof {
            lemma_wide_product_fits(self.sol_spent, self.tokens_sold);
        }
        if cost_of_sold > 0x1_0000_0000_0000_0000_0000 {
            return i64::MIN;
        }
        clamp_to_i64((self.sol_received as i128) - (cost_of_sold as i128))
    }

    /// Calculate the unrealized profit or loss at a given price.
    pub fn unrealized_pnl(&self, current_price: u64) -> (r: i64)
        ensures
            r == clamp_i64(self.unrealized(current_price)),
    {
        if self.token_balance == 0 {
            return 0;
        }
        let current_value: u128 = mul_div(self.token_balance, current_price, PRICE_PRECISION);
        proof {
            lemma_wide_product_fits(self.token_balance, current_price);
            lemma_div_is_ordered_by_denominator(
                (self.token_balance as int) * (current_price as int),
                1,
                PRICE_PRECISION as int,
            );
        }
        clamp_to_i64((current_value as i128) - (self.cost_basis as i128))
    }

    /// Calculate the total profit or loss, realized and unrealized.
    pub fn total_pnl(&self, current_price: u64) -> (r: i64)
        ensures
            r == self.total(current_price),
    {
        let realized: i64 = self.realized_pnl();
        let unrealized: i64 = self.unrealized_pnl(current_price);
        clamp_to_i64((realized as i128) + (unrealized as i128))
    }

    /// Calculate the return on what was spent, in basis points: zero while
    /// nothing was spent.
    pub fn roi_percent(&self, current_price: u64) -> (r: i64)
        ensures
            r == clamp_i64(self.roi(current_price)),
    {
        if self.sol_spent == 0 {
            return 0;
        }
        let total_pnl: i64 = self.total_pnl(current_price);
        let scaled: i128 = (total_pnl as i128) * 10000;
        let spent: u128 = self.sol_spent as u128;
        if scaled >= 0 {
            let quotient: u128 = (scaled as u128) / spent;
            proof {
                lemma_div_is_ordered_by_denominator(scaled as int, 1, spent as int);
            }
            clamp_to_i64(quotient as i128)
        } else {
            let quotient: u128 = ((-scaled) as u128) / spent;
            proof {
                lemma_div_is_ordered_by_denominator(-scaled as int, 1, spent as int);
            }
            clamp_to_i64(-(quotient as i128))
        }
    }

    /// Check if this is the user's first trade.
    pub fn is_new(&self) -> (r: bool)
        ensures
            r == (self.buy_count == 0 && self.sell_count == 0),
    {
        self.buy_count == 0 && self.sell_count == 0
    }

    /// Get the total trade count, capped at 32 bits.
    pub fn total_trades(&self) -> (r: u32)
        ensures
            r == if self.buy_count + self.sell_count > u32::MAX {
                u32::MAX as int
            } else {
                self.buy_count + self.sell_count
            },
    {
        self.buy_count.saturating_add(self.sell_count)
    }
}

} // verus!
