//! The record of one token launch on the bonding curve: its reserves, its
//! status, and its statistics.

use vstd::prelude::*;
use vstd::string::StrSliceExecFns;
use crate::address::{zeros, Address};
use crate::math::arith::{mul_div, wide_mul};
use crate::math::bonding_curve::{calculate_price, capped, capped_add, floor_sub, price_of};

verus! {

/// Total supply: one billion tokens with 9 decimals.
pub const TOTAL_SUPPLY: u64 = 1_000_000_000_000_000_000;

/// Share of the supply sold on the curve: 80%.
pub const CURVE_BPS: u16 = 8000;

/// Share of the supply reserved for the graduated pool: 20%.
pub const LP_RESERVE_BPS: u16 = 2000;

/// Quote amount that goes into the graduated pool.
pub const LP_SOL_LAMPORTS: u64 = 80_000_000_000;

/// Quote amount paid to the creator at graduation.
pub const CREATOR_REWARD_LAMPORTS: u64 = 2_000_000_000;

/// Quote amount paid to the treasury at graduation.
pub const TREASURY_FEE_LAMPORTS: u64 = 3_000_000_000;

/// Quote amount that the curve must hold to graduate: the sum of the three
/// amounts above.
pub const GRADUATION_THRESHOLD: u64 = 85_000_000_000;

/// Initial virtual quote reserve.
pub const INITIAL_VIRTUAL_SOL: u64 = 30_000_000_000;

/// Initial virtual base reserve.
pub const INITIAL_VIRTUAL_TOKENS: u64 = 800_000_000_000_000_000;

/// The base units sold on the curve: 80% of the supply.
pub fn curve_tokens() -> (r: u64)
    ensures
        r == 800_000_000_000_000_000,
        r == TOTAL_SUPPLY * CURVE_BPS / 10000,
{
    mul_div(TOTAL_SUPPLY, CURVE_BPS as u64, 10000) as u64
}

/// The base units reserved for the graduated pool: 20% of the supply.
pub fn lp_reserve_tokens() -> (r: u64)
    ensures
        r == 200_000_000_000_000_000,
        r == TOTAL_SUPPLY * LP_RESERVE_BPS / 10000,
{
    mul_div(TOTAL_SUPPLY, LP_RESERVE_BPS as u64, 10000) as u64
}

/// The product of the initial virtual reserves.
pub fn initial_k() -> (r: u128)
    ensures
        r == INITIAL_VIRTUAL_SOL * INITIAL_VIRTUAL_TOKENS,
        r == 24_000_000_000_000_000_000_000_000_000,
{
    wide_mul(INITIAL_VIRTUAL_SOL, INITIAL_VIRTUAL_TOKENS)
}

/// Status of a token launch.
#[derive(Clone, Copy, Debug, PartialEq, Eq, Structural)]
pub enum LaunchStatus {
    /// Actively trading on the bonding curve.
    Active,
    /// Graduation threshold reached, awaiting migration.
    PendingGraduation,
    /// Migrated to the pool.
    Graduated,
    /// Cancelled by the creator.
    Cancelled,
}

impl Default for LaunchStatus {
    fn default() -> (r: Self)
        ensures
            r == LaunchStatus::Active,
    {
        LaunchStatus::Active
    }
}

/// A single token on the bonding curve.
#[derive(Clone, Copy, Debug, PartialEq, Eq)]
pub struct Launch {
    /// Token mint address.
    pub mint: Address,
    /// Creator of the launch.
    pub creator: Address,
    /// Current status.
    pub status: LaunchStatus,
    /// Total token supply.
    pub total_supply: u64,
    /// Base units sold through the curve.
    pub tokens_sold: u64,
    /// Base units reserved for graduation liquidity.
    pub graduation_tokens: u64,
    /// Base units allocated to the creator.
    pub creator_tokens: u64,
    /// Virtual quote reserve, for pricing.
    pub virtual_sol_reserve: u64,
    /// Virtual base reserve, for pricing.
    pub virtual_token_reserve: u64,
    /// Quote units collected in the curve vault.
    pub real_sol_reserve: u64,
    /// Base units remaining in the token vault.
    pub real_token_reserve: u64,
    /// Quote amount that triggers graduation.
    pub graduation_threshold: u64,
    /// Time of creation.
    pub created_at: i64,
    /// Time of graduation, zero before.
    pub graduated_at: i64,
    /// Total buy volume in quote units.
    pub buy_volume: u128,
    /// Total sell volume in quote units.
    pub sell_volume: u128,
    /// Total number of trades.
    pub trade_count: u64,
    /// Number of holders.
    pub holder_count: u32,
    /// Address of the pool after graduation.
    pub orbit_pool: Address,
    /// Creator's fee in basis points.
    pub creator_fee_bps: u16,
    /// Token name, padded with zero bytes.
    pub name: [u8; 32],
    /// Token symbol, padded with zero bytes.
    pub symbol: [u8; 10],
    /// Metadata URI, padded with zero bytes.
    pub uri: [u8; 200],
    /// Twitter handle, padded with zero bytes.
    pub twitter: [u8; 64],
    /// Telegram group, padded with zero bytes.
    pub telegram: [u8; 64],
    /// Website URL, padded with zero bytes.
    pub website: [u8; 64],
    /// Bump seed of the record's address.
    pub bump: u8,
    /// Bump seed of the launch authority.
    pub authority_bump: u8,
    /// Reserved for future use.
    pub _reserved: [u8; 32],
}

/// `x + y`, or the largest 128-bit value where the sum is larger.
pub open spec fn capped_add_wide(x: int, y: int) -> int {
    if x + y > u128::MAX {
        u128::MAX as int
    } else {
        x + y
    }
}

/// A text with its trailing NUL characters removed.
pub open spec fn trim_nul(text: Seq<char>) -> Seq<char>
    decreases text.len(),
{
    if text.len() > 0 && text.last() == '\0' {
        trim_nul(text.drop_last())
    } else {
        text
    }
}

/// The text that a byte string decodes to as UTF-8, where every malformed
/// sequence is replaced by U+FFFD.
pub uninterp spec fn utf8_lossy(bytes: Seq<u8>) -> Seq<char>;

impl Default for Launch {
    fn default() -> (r: Self)
        ensures
            r.mint@ == zeros(32),
            r.creator@ == zeros(32),
            r.orbit_pool@ == zeros(32),
            r.status == LaunchStatus::Active,
            r.total_supply == 0,
            r.tokens_sold == 0,
            r.graduation_tokens == 0,
            r.creator_tokens == 0,
            r.virtual_sol_reserve == 0,
            r.virtual_token_reserve == 0,
            r.real_sol_reserve == 0,
            r.real_token_reserve == 0,
            r.graduation_threshold == 0,
            r.created_at == 0,
            r.graduated_at == 0,
            r.buy_volume == 0,
            r.sell_volume == 0,
            r.trade_count == 0,
            r.holder_count == 0,
            r.creator_fee_bps == 0,
            r.name@ == zeros(32),
            r.symbol@ == zeros(10),
            r.uri@ == zeros(200),
            r.twitter@ == zeros(64),
            r.telegram@ == zeros(64),
            r.website@ == zeros(64),
            r.bump == 0,
            r.authority_bump == 0,
            r._reserved@ == zeros(32),
    {
        let r = Launch {
            mint: Address::default(),
            creator: Address::default(),
            status: LaunchStatus::Active,
            total_supply: 0,
            tokens_sold: 0,
            graduation_tokens: 0,
            creator_tokens: 0,
            virtual_sol_reserve: 0,
            virtual_token_reserve: 0,
            real_sol_reserve: 0,
            real_token_reserve: 0,
            graduation_threshold: 0,
            created_at: 0,
            graduated_at: 0,
            buy_volume: 0,
            sell_volume: 0,
            trade_count: 0,
            holder_count: 0,
            orbit_pool: Address::default(),
            creator_fee_bps: 0,
            name: [0u8; 32],
            symbol: [0u8; 10],
            uri: [0u8; 200],
            twitter: [0u8; 64],
            telegram: [0u8; 64],
            website: [0u8; 64],
            bump: 0,
            authority_bump: 0,
            _reserved: [0u8; 32],
        };
        assert(r.name@ =~= zeros(32));
        assert(r.symbol@ =~= zeros(10));
        assert(r.uri@ =~= zeros(200));
        assert(r.twitter@ =~= zeros(64));
        assert(r.telegram@ =~= zeros(64));
        assert(r.website@ =~= zeros(64));
        assert(r._reserved@ =~= zeros(32));
        r
    }
}

/// Decode bytes as UTF-8 with `String::from_utf8_lossy`, which replaces every
/// malformed sequence by U+FFFD. The contract names the decoded text.
#[verifier::external_body]
fn decode_utf8_lossy(bytes: &[u8]) -> (text: String)
    ensures
        text@ == utf8_lossy(bytes@),
{
    String::from_utf8_lossy(bytes).into_owned()
}

/// A text without its trailing NUL characters.
fn trim_trailing_nul(text: &str) -> (r: String)
    ensures
        r@ == trim_nul(text@),
{
    let mut end: usize = text.unicode_len();
    assert(text@.take(end as int) == text@);
    while end > 0 && text.get_char(end - 1) == '\0'
        invariant
            end <= text@.len(),
            trim_nul(text@.take(end as int)) == trim_nul(text@),
        decreases end,
    {
        proof {
            let kept: Seq<char> = text@.take(end as int);
            assert(kept.last() == text@[end - 1]);
            assert(kept.drop_last() == text@.take(end - 1));
        }
        end = end - 1;
    }
    proof {
        let kept: Seq<char> = text@.take(end as int);
        if end > 0 {
            assert(kept.last() == text@[end - 1]);
        }
        assert(kept == text@.subrange(0, end as int));
    }
    text.substring_char(0, end).to_owned()
}

impl Launch {
    /// Size of the stored record in bytes, its 8-byte tag included.
    pub const LEN: usize = 707;

    /// Whether the launch trades on the curve.
    pub open spec fn tradeable(self) -> bool {
        self.status == LaunchStatus::Active
    }

    /// Whether the launch may still graduate.
    pub open spec fn graduable(self) -> bool {
        self.status == LaunchStatus::Active || self.status == LaunchStatus::PendingGraduation
    }

    /// Whether the curve holds the quote amount that graduation takes.
    pub open spec fn at_threshold(self) -> bool {
        self.real_sol_reserve >= self.graduation_threshold
    }

    /// The scaled price of the virtual reserves, capped at 64 bits.
    pub open spec fn price(self) -> int {
        capped(price_of(self.virtual_sol_reserve as int, self.virtual_token_reserve as int))
    }

    /// The record after a buy that hands out `tokens_out` base units for
    /// `sol_in` quote units entering the vault. Both pairs of reserves move,
    /// the statistics count the trade, and an active launch whose vault
    /// reaches the threshold awaits graduation from then on.
    pub open spec fn after_buy(self, tokens_out: u64, sol_in: u64) -> Launch {
        let real_sol_reserve = capped_add(self.real_sol_reserve as int, sol_in as int) as u64;
        Launch {
            tokens_sold: capped_add(self.tokens_sold as int, tokens_out as int) as u64,
            real_sol_reserve,
            real_token_reserve: floor_sub(self.real_token_reserve as int, tokens_out as int) as u64,
            buy_volume: capped_add_wide(self.buy_volume as int, sol_in as int) as u128,
            trade_count: capped_add(self.trade_count as int, 1) as u64,
            virtual_sol_reserve: capped_add(self.virtual_sol_reserve as int, sol_in as int) as u64,
            virtual_token_reserve: floor_sub(
                self.virtual_token_reserve as int,
                tokens_out as int,
            ) as u64,
            status: if real_sol_reserve >= self.graduation_threshold && self.status
                == LaunchStatus::Active {
                LaunchStatus::PendingGraduation
            } else {
                self.status
            },
            ..self
        }
    }

    /// The record after a sale that takes in `tokens_in` base units for
    /// `sol_out` quote units leaving the vault.
    pub open spec fn after_sell(self, tokens_in: u64, sol_out: u64) -> Launch {
        Launch {
            tokens_sold: floor_sub(self.tokens_sold as int, tokens_in as int) as u64,
            real_sol_reserve: floor_sub(self.real_sol_reserve as int, sol_out as int) as u64,
            real_token_reserve: capped_add(self.real_token_reserve as int, tokens_in as int) as u64,
            sell_volume: capped_add_wide(self.sell_volume as int, sol_out as int) as u128,
            trade_count: capped_add(self.trade_count as int, 1) as u64,
            virtual_sol_reserve: floor_sub(self.virtual_sol_reserve as int, sol_out as int) as u64,
            virtual_token_reserve: capped_add(
                self.virtual_token_reserve as int,
                tokens_in as int,
            ) as u64,
            ..self
        }
    }

    /// The record after graduation into `orbit_pool` at `timestamp`.
    pub open spec fn after_graduation(self, orbit_pool: Address, timestamp: i64) -> Launch {
        Launch { status: LaunchStatus::Graduated, orbit_pool, graduated_at: timestamp, ..self }
    }

    /// Check if the launch is active and tradeable.
    pub fn is_tradeable(&self) -> (r: bool)
        ensures
            r == self.tradeable(),
    {
        self.status == LaunchStatus::Active
    }

    /// Check if the launch can graduate.
    pub fn can_graduate(&self) -> (r: bool)
        ensures
            r == self.graduable(),
    {
        self.status == LaunchStatus::Active || self.status == LaunchStatus::PendingGraduation
    }

    /// Check if the graduation threshold is reached.
    pub fn threshold_reached(&self) -> (r: bool)
        ensures
            r == self.at_threshold(),
    {
        self.real_sol_reserve >= self.graduation_threshold
    }

    /// Get the current price, quote units per base unit scaled by 1e9: zero
    /// when the virtual base reserve is empty, capped at 64 bits.
    pub fn current_price(&self) -> (r: u64)
        ensures
            r == self.price(),
    {
        calculate_price(self.virtual_sol_reserve, self.virtual_token_reserve)
    }

    /// Get the market cap in quote units: the current price times the total
    /// supply, scaled back by 1e9 and capped at 64 bits.
    pub fn market_cap(&self) -> (r: u64)
        ensures
            r == capped(self.price() * self.total_supply / 1_000_000_000),
    {
        let price: u64 = self.current_price();
        let cap: u128 = mul_div(price, self.total_supply, 1_000_000_000);
        if cap > u64::MAX as u128 {
            u64::MAX
        } else {
            cap as u64
        }
    }

    /// Record a buy transaction.
    pub fn record_buy(&mut self, tokens_out: u64, sol_in: u64)
        ensures
            *final(self) == old(self).after_buy(tokens_out, sol_in),
    {
        self.tokens_sold = self.tokens_sold.saturating_add(tokens_out);
        self.real_sol_reserve = self.real_sol_reserve.saturating_add(sol_in);
        self.real_token_reserve = self.real_token_reserve.saturating_sub(tokens_out);
        self.buy_volume = self.buy_volume.saturating_add(sol_in as u128);
        self.trade_count = self.trade_count.saturating_add(1);

        self.virtual_sol_reserve = self.virtual_sol_reserve.saturating_add(sol_in);
        self.virtual_token_reserve = self.virtual_token_reserve.saturating_sub(tokens_out);

        if self.threshold_reached() && self.status == LaunchStatus::Active {
            self.status = LaunchStatus::PendingGraduation;
        }
    }

    /// Record a sell transaction.
    pub fn record_sell(&mut self, tokens_in: u64, sol_out: u64)
        ensures
            *final(self) == old(self).after_sell(tokens_in, sol_out),
    {
        self.tokens_sold = self.tokens_sold.saturating_sub(tokens_in);
        self.real_sol_reserve = self.real_sol_reserve.saturating_sub(sol_out);
        self.real_token_reserve = self.real_token_reserve.saturating_add(tokens_in);
        self.sell_volume = self.sell_volume.saturating_add(sol_out as u128);
        self.trade_count = self.trade_count.saturating_add(1);

        self.virtual_sol_reserve = self.virtual_sol_reserve.saturating_sub(sol_out);
        self.virtual_token_reserve = self.virtual_token_reserve.saturating_add(tokens_in);
    }

    /// Mark as graduated.
    pub fn graduate(&mut self, orbit_pool: Address, timestamp: i64)
        ensures
            *final(self) == old(self).after_graduation(orbit_pool, timestamp),
    {
        self.status = LaunchStatus::Graduated;
        self.orbit_pool = orbit_pool;
        self.graduated_at = timestamp;
    }

    /// Get the name as a string: the buffer decoded as UTF-8, without the
    /// padding at its end.
    pub fn name_str(&self) -> (r: String)
        ensures
            r@ == trim_nul(utf8_lossy(self.name@)),
    {
        let text: String = decode_utf8_lossy(self.name.as_slice());
        trim_trailing_nul(text.as_str())
    }

    /// Get the symbol as a string: the buffer decoded as UTF-8, without the
    /// padding at its end.
    pub fn symbol_str(&self) -> (r: String)
        ensures
            r@ == trim_nul(utf8_lossy(self.symbol@)),
    {
        let text: String = decode_utf8_lossy(self.symbol.as_slice());
        trim_trailing_nul(text.as_str())
    }
}

} // verus!
