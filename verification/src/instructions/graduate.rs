//! Graduating a launch: planning the move of the curve's liquidity into a
//! pool.
//!
//! The quote units of the curve vault are split three ways: a fixed reward to
//! the creator, a fixed fee to the treasury, and the rest to the pool. The
//! pool's liquidity is spread over the bins around the current price: 40% of
//! the base units over the bins below the active bin, 40% of the quote units
//! over the bins above it, and 10% of each into the active bin.

use vstd::prelude::*;
use vstd::arithmetic::div_mod::*;
use vstd::arithmetic::mul::*;
use crate::address::{lemma_precedes_is_total, Address};
use crate::error::LaunchrError;
use crate::instructions::orbit_cpi::{
    add_liquidity_data, build_add_liquidity_v2_instruction, build_create_bin_array_instruction,
    build_init_pool_instruction, build_init_position_instruction, build_init_vaults_instruction,
    init_pool_data, readonly, writable, AccountMeta, Instruction, CREATE_BIN_ARRAY_DISCRIMINATOR,
    INIT_POOL_VAULTS_DISCRIMINATOR, INIT_POSITION_DISCRIMINATOR,
};
use crate::encoding::{as_unsigned_32, le_bytes};
use crate::math::arith::{mul_div, lemma_div_bounds};
use crate::math::bonding_curve::capped_add;
use crate::math::orbit_math::{
    bin_array_lower_of, bin_index_of, fixed_of_price, get_bin_array_lower_index,
    price_to_bin_index, price_to_q64_64,
};
use crate::seeds::{canonical, get_orbit_mint_assignment};
use crate::state::config::Config;
use crate::state::launch::{
    Launch, CREATOR_REWARD_LAMPORTS, GRADUATION_THRESHOLD, TREASURY_FEE_LAMPORTS,
};

verus! {

/// Default number of bins on each side of the active bin.
pub const DEFAULT_BINS_PER_SIDE: u8 = 10;

/// Share of the base units that goes to the bins below the active bin, in
/// percent.
pub const BASE_ALLOCATION_PCT: u8 = 40;

/// Share of the quote units that goes to the bins above the active bin, in
/// percent.
pub const QUOTE_ALLOCATION_PCT: u8 = 40;

/// Share that goes to the active bin, in percent: half of it is taken from
/// the base units and half from the quote units.
pub const ACTIVE_BIN_PCT: u8 = 20;

/// Decimals of the token.
pub const TOKEN_DECIMALS: u8 = 9;

/// Nonce of the one position that a launch holds in its pool.
pub const POSITION_NONCE: u64 = 0;

/// Parameters for graduation.
#[derive(Clone, Copy, Debug, PartialEq, Eq)]
pub struct GraduateParams {
    /// Bin step of the pool in basis points; the configured default if
    /// `None`.
    pub bin_step_bps: Option<u16>,
    /// Number of bins on each side of the active bin; ten if `None`.
    pub num_liquidity_bins: Option<u8>,
}

/// Event published when a launch graduates.
#[derive(Clone, Copy, Debug, PartialEq, Eq)]
pub struct LaunchGraduated {
    /// The launch.
    pub launch: Address,
    /// Its token mint.
    pub mint: Address,
    /// The pool it graduated into.
    pub orbit_pool: Address,
    /// Quote units that go to the pool.
    pub sol_liquidity: u64,
    /// Base units that go to the pool.
    pub token_liquidity: u64,
    /// Price of the curve at graduation.
    pub final_price: u64,
    /// Bin of that price.
    pub active_bin_index: i32,
    /// Quote units paid to the creator.
    pub creator_reward: u64,
    /// Quote units paid to the treasury.
    pub treasury_fee: u64,
    /// Time of graduation.
    pub timestamp: i64,
}

/// The accounts that a graduation touches.
#[derive(Clone, Copy, Debug, PartialEq, Eq)]
pub struct GraduateAccounts {
    /// Who pays for the new accounts.
    pub payer: Address,
    /// The launch record.
    pub launch: Address,
    /// The authority over the launch's tokens; it owns the position.
    pub launch_authority: Address,
    /// The account that is to receive the creator's reward.
    pub creator: Address,
    /// The account that is to receive the treasury's fee.
    pub treasury: Address,
    /// The base vault of the curve.
    pub token_vault: Address,
    /// The quote vault of the curve.
    pub curve_vault: Address,
    /// The pool program.
    pub orbit_program: Address,
    /// The pool.
    pub orbit_pool: Address,
    /// The pool's registry entry.
    pub orbit_registry: Address,
    /// The pool's base vault.
    pub orbit_base_vault: Address,
    /// The pool's quote vault.
    pub orbit_quote_vault: Address,
    /// The pool's creator fee vault.
    pub orbit_creator_fee_vault: Address,
    /// The pool's holders fee vault.
    pub orbit_holders_fee_vault: Address,
    /// The pool's NFT fee vault.
    pub orbit_nft_fee_vault: Address,
    /// The pool's protocol fee vault.
    pub orbit_protocol_fee_vault: Address,
    /// The bin array of the active bin.
    pub orbit_bin_array: Address,
    /// The liquidity position.
    pub orbit_position: Address,
    /// The token program.
    pub token_program: Address,
    /// The system program.
    pub system_program: Address,
}

/// What the caller has to carry out to graduate a launch, in this order: pay
/// the creator and the treasury out of the curve vault, make the first four
/// calls, move the graduation reserve into the token vault, and make the
/// last call.
#[derive(Debug, PartialEq, Eq)]
pub struct GraduationPlan {
    /// Price of the curve, scaled by 1e9.
    pub current_price: u64,
    /// That price in fixed point.
    pub price_q64_64: u128,
    /// Bin of that price.
    pub active_bin_index: i32,
    /// First bin of the bin array that holds the active bin.
    pub bin_array_lower: i32,
    /// Base mint of the pool: the smaller of the two mints.
    pub base_mint: Address,
    /// Quote mint of the pool.
    pub quote_mint: Address,
    /// Whether the token is the quote of the pool rather than its base.
    pub is_inverted: bool,
    /// Quote units to pay to the creator.
    pub creator_reward: u64,
    /// Quote units to pay to the treasury.
    pub treasury_fee: u64,
    /// Quote units left for the pool.
    pub lp_sol_amount: u64,
    /// Base units for the pool.
    pub token_amount: u64,
    /// Bins that receive liquidity, lowest first.
    pub bin_ids: Vec<i32>,
    /// Liquidity of each of those bins.
    pub distribution: Vec<u64>,
    /// The call that initialises the pool.
    pub init_pool: Instruction,
    /// The call that initialises the pool's vaults.
    pub init_vaults: Instruction,
    /// The call that creates the bin array.
    pub create_bin_array: Instruction,
    /// The call that initialises the position.
    pub init_position: Instruction,
    /// The call that adds the liquidity.
    pub add_liquidity: Instruction,
    /// The event to publish.
    pub event: LaunchGraduated,
}

/// The liquidity of each bin below the active bin: 40% of the base units,
/// divided evenly, rounded down twice.
pub open spec fn base_per_bin(num_bins_per_side: int, total_base_tokens: int) -> int {
    if num_bins_per_side > 0 {
        (total_base_tokens * (BASE_ALLOCATION_PCT as int) / 100) / num_bins_per_side
    } else {
        0
    }
}

/// The liquidity of each bin above the active bin: 40% of the quote units,
/// divided evenly, rounded down twice.
pub open spec fn quote_per_bin(num_bins_per_side: int, total_quote_tokens: int) -> int {
    if num_bins_per_side > 0 {
        (total_quote_tokens * (QUOTE_ALLOCATION_PCT as int) / 100) / num_bins_per_side
    } else {
        0
    }
}

/// The liquidity of the active bin: 10% of the base units and 10% of the
/// quote units, each rounded down.
pub open spec fn active_bin_share(total_base_tokens: int, total_quote_tokens: int) -> int {
    total_base_tokens * (ACTIVE_BIN_PCT as int) / 200 + total_quote_tokens * (
    ACTIVE_BIN_PCT as int) / 200
}

/// The bins of a balanced distribution: the active bin with
/// `num_bins_per_side` bins on each side, lowest first.
pub open spec fn balanced_bin_ids(active_bin_index: i32, num_bins_per_side: u8) -> Seq<i32> {
    Seq::new(
        (2 * num_bins_per_side + 1) as nat,
        |i: int| (active_bin_index - num_bins_per_side + i) as i32,
    )
}

/// The liquidity of each bin of a balanced distribution, lowest bin first.
pub open spec fn balanced_shares(
    num_bins_per_side: u8,
    total_base_tokens: u64,
    total_quote_tokens: u64,
) -> Seq<u64> {
    Seq::new(
        (2 * num_bins_per_side + 1) as nat,
        |i: int|
            if i < num_bins_per_side {
                base_per_bin(num_bins_per_side as int, total_base_tokens as int) as u64
            } else if i == num_bins_per_side {
                active_bin_share(total_base_tokens as int, total_quote_tokens as int) as u64
            } else {
                quote_per_bin(num_bins_per_side as int, total_quote_tokens as int) as u64
            },
    )
}

/// Whether every bin of a balanced distribution is a 32-bit index.
pub open spec fn bins_in_range(active_bin_index: i32, num_bins_per_side: u8) -> bool {
    i32::MIN <= active_bin_index - num_bins_per_side && active_bin_index + num_bins_per_side
        <= i32::MAX
}

/// The sum of the shares at the places from `from` up to, not including,
/// `to`.
pub open spec fn allocated(shares: Seq<u64>, from: int, to: int) -> int
    decreases to - from,
{
    if from >= to {
        0
    } else {
        allocated(shares, from, to - 1) + shares[to - 1]
    }
}

/// Where all shares of a range are the same, their sum is that share times
/// the length of the range.
proof fn lemma_allocated_even(shares: Seq<u64>, from: int, to: int, share: int)
    requires
        0 <= from <= to <= shares.len(),
        forall|i: int| from <= i < to ==> shares[i] == share,
    ensures
        allocated(shares, from, to) == (to - from) * share,
    decreases to - from,
{
    if from < to {
        lemma_allocated_even(shares, from, to - 1, share);
        assert((to - from) * share == (to - 1 - from) * share + share) by (nonlinear_arith);
    } else {
        lemma_mul_basics(share);
    }
}

/// A share of at most half the units fits 64 bits.
proof fn lemma_percent_bounds(total: u64, percent: int, of: int)
    requires
        0 <= percent,
        0 < of,
        2 * percent <= of,
    ensures
        0 <= total * percent / of,
        2 * (total * percent / of) <= total,
{
    let t: int = total as int;
    lemma_mul_nonnegative(t, percent);
    lemma_div_pos_is_pos(t * percent, of);
    lemma_fundamental_div_mod(t * percent, of);
    lemma_mod_bound(t * percent, of);
    let q: int = t * percent / of;
    assert(2 * q <= t) by (nonlinear_arith)
        requires
            of * q <= t * percent,
            2 * percent <= of,
            0 <= percent,
            0 < of,
            0 <= q,
            0 <= t,
    ;
}

/// Calculate the balanced liquidity distribution across bins: the bins, and
/// the liquidity of each.
///
/// Rejected with [`LaunchrError::MathOverflow`] where a bin would lie outside
/// the 32-bit indices.
pub fn calculate_balanced_distribution(
    active_bin_index: i32,
    num_bins_per_side: u8,
    total_base_tokens: u64,
    total_quote_tokens: u64,
) -> (r: Result<(Vec<i32>, Vec<u64>), LaunchrError>)
    ensures
        !bins_in_range(active_bin_index, num_bins_per_side) ==> r is Err && r->Err_0
            == LaunchrError::MathOverflow,
        bins_in_range(active_bin_index, num_bins_per_side) ==> r is Ok,
        r matches Ok(plan) ==> {
            &&& plan.0@ == balanced_bin_ids(active_bin_index, num_bins_per_side)
            &&& plan.1@ == balanced_shares(num_bins_per_side, total_base_tokens, total_quote_tokens)
        },
{
    let side: i64 = num_bins_per_side as i64;
    if (active_bin_index as i64) - side < (i32::MIN as i64) || (active_bin_index as i64) + side > (
    i32::MAX as i64) {
        return Err(LaunchrError::MathOverflow);
    }
    proof {
        lemma_percent_bounds(total_base_tokens, 40, 100);
        lemma_percent_bounds(total_quote_tokens, 40, 100);
        lemma_percent_bounds(total_base_tokens, 20, 200);
        lemma_percent_bounds(total_quote_tokens, 20, 200);
    }
    let base_share: u64 = if num_bins_per_side > 0 {
        let whole: u64 = mul_div(total_base_tokens, BASE_ALLOCATION_PCT as u64, 100) as u64;
        whole / (num_bins_per_side as u64)
    } else {
        0
    };
    let quote_share: u64 = if num_bins_per_side > 0 {
        let whole: u64 = mul_div(total_quote_tokens, QUOTE_ALLOCATION_PCT as u64, 100) as u64;
        whole / (num_bins_per_side as u64)
    } else {
        0
    };
    let active_base: u64 = mul_div(total_base_tokens, ACTIVE_BIN_PCT as u64, 200) as u64;
    let active_quote: u64 = mul_div(total_quote_tokens, ACTIVE_BIN_PCT as u64, 200) as u64;

    let ghost ids: Seq<i32> = balanced_bin_ids(active_bin_index, num_bins_per_side);
    let ghost shares: Seq<u64> = balanced_shares(
        num_bins_per_side,
        total_base_tokens,
        total_quote_tokens,
    );
    let mut bin_ids: Vec<i32> = Vec::new();
    let mut distribution: Vec<u64> = Vec::new();

    let mut below: u8 = 0;
    while below < num_bins_per_side
        invariant
            below <= num_bins_per_side,
            bins_in_range(active_bin_index, num_bins_per_side),
            ids == balanced_bin_ids(active_bin_index, num_bins_per_side),
            shares == balanced_shares(num_bins_per_side, total_base_tokens, total_quote_tokens),
            base_share == base_per_bin(num_bins_per_side as int, total_base_tokens as int),
            bin_ids@ == ids.take(below as int),
            distribution@ == shares.take(below as int),
        decreases num_bins_per_side - below,
    {
        let bin_id: i32 = active_bin_index - ((num_bins_per_side - below) as i32);
        bin_ids.push(bin_id);
        distribution.push(base_share);
        proof {
            assert(ids.take(below + 1) == ids.take(below as int).push(ids[below as int]));
            assert(shares.take(below + 1) == shares.take(below as int).push(shares[below as int]));
        }
        below = below + 1;
    }

    bin_ids.push(active_bin_index);
    distribution.push(active_base + active_quote);
    proof {
        let n: int = num_bins_per_side as int;
        assert(ids.take(n + 1) == ids.take(n).push(ids[n]));
        assert(shares.take(n + 1) == shares.take(n).push(shares[n]));
    }

    let mut above: u8 = 0;
    while above < num_bins_per_side
        invariant
            above <= num_bins_per_side,
            bins_in_range(active_bin_index, num_bins_per_side),
            ids == balanced_bin_ids(active_bin_index, num_bins_per_side),
            shares == balanced_shares(num_bins_per_side, total_base_tokens, total_quote_tokens),
            quote_share == quote_per_bin(num_bins_per_side as int, total_quote_tokens as int),
            bin_ids@ == ids.take(num_bins_per_side + 1 + above),
            distribution@ == shares.take(num_bins_per_side + 1 + above),
        decreases num_bins_per_side - above,
    {
        let bin_id: i32 = active_bin_index + ((above + 1) as i32);
        bin_ids.push(bin_id);
        distribution.push(quote_share);
        proof {
            let at: int = num_bins_per_side + 1 + above;
            assert(ids.take(at + 1) == ids.take(at).push(ids[at]));
            assert(shares.take(at + 1) == shares.take(at).push(shares[at]));
        }
        above = above + 1;
    }
    proof {
        assert(ids.take(2 * num_bins_per_side + 1) == ids);
        assert(shares.take(2 * num_bins_per_side + 1) == shares);
    }
    Ok((bin_ids, distribution))
}

/// A balanced distribution keeps to its budgets. With at least one bin on
/// each side, the bins below the active bin together hold 40% of the base
/// units, rounded down, less a remainder smaller than the number of bins on
/// a side; the bins above it hold 40% of the quote units in the same way;
/// and the active bin holds a tenth of the base units and a tenth of the
/// quote units, each rounded down. With no bins on the sides, the active bin
/// is all there is.
pub proof fn lemma_balanced_distribution_conserves(
    num_bins_per_side: u8,
    total_base_tokens: u64,
    total_quote_tokens: u64,
)
    ensures
        ({
            let n = num_bins_per_side as int;
            let shares = balanced_shares(num_bins_per_side, total_base_tokens, total_quote_tokens);
            let base_budget = total_base_tokens * 40 / 100;
            let quote_budget = total_quote_tokens * 40 / 100;
            &&& shares.len() == 2 * n + 1
            &&& shares[n] == total_base_tokens / 10 + total_quote_tokens / 10
            &&& n > 0 ==> allocated(shares, 0, n) <= base_budget
            &&& n > 0 ==> base_budget - allocated(shares, 0, n) == base_budget % n
            &&& n > 0 ==> base_budget - allocated(shares, 0, n) < n
            &&& n > 0 ==> allocated(shares, n + 1, 2 * n + 1) <= quote_budget
            &&& n > 0 ==> quote_budget - allocated(shares, n + 1, 2 * n + 1) == quote_budget % n
            &&& n > 0 ==> quote_budget - allocated(shares, n + 1, 2 * n + 1) < n
            &&& n == 0 ==> allocated(shares, 0, n) == 0 && allocated(shares, n + 1, 2 * n + 1) == 0
        }),
{
    let n: int = num_bins_per_side as int;
    let shares = balanced_shares(num_bins_per_side, total_base_tokens, total_quote_tokens);
    let base_budget: int = total_base_tokens * 40 / 100;
    let quote_budget: int = total_quote_tokens * 40 / 100;
    lemma_percent_bounds(total_base_tokens, 40, 100);
    lemma_percent_bounds(total_quote_tokens, 40, 100);
    lemma_percent_bounds(total_base_tokens, 20, 200);
    lemma_percent_bounds(total_quote_tokens, 20, 200);
    assert(total_base_tokens * 20 / 200 == total_base_tokens / 10) by {
        lemma_div_denominator(total_base_tokens * 20, 20, 10);
        lemma_div_multiples_vanish(total_base_tokens as int, 20);
    }
    assert(total_quote_tokens * 20 / 200 == total_quote_tokens / 10) by {
        lemma_div_denominator(total_quote_tokens * 20, 20, 10);
        lemma_div_multiples_vanish(total_quote_tokens as int, 20);
    }
    if n > 0 {
        let base_share: int = base_per_bin(n, total_base_tokens as int);
        let quote_share: int = quote_per_bin(n, total_quote_tokens as int);
        lemma_div_bounds(base_budget, n);
        lemma_div_bounds(quote_budget, n);
        lemma_allocated_even(shares, 0, n, base_share);
        lemma_allocated_even(shares, n + 1, 2 * n + 1, quote_share);
        lemma_fundamental_div_mod(base_budget, n);
        lemma_mod_bound(base_budget, n);
        lemma_fundamental_div_mod(quote_budget, n);
        lemma_mod_bound(quote_budget, n);
    }
}

/// The bin step of the graduation: the one asked for, else the configured
/// default.
pub open spec fn chosen_bin_step(config: Config, params: GraduateParams) -> u16 {
    match params.bin_step_bps {
        Some(step) => step,
        None => config.default_bin_step_bps,
    }
}

/// The number of bins on each side: the one asked for, else the default.
pub open spec fn chosen_bins_per_side(params: GraduateParams) -> u8 {
    match params.num_liquidity_bins {
        Some(bins) => bins,
        None => DEFAULT_BINS_PER_SIDE,
    }
}

/// The bin of the launch's current price at the chosen bin step.
pub open spec fn graduation_bin(config: Config, launch: Launch, params: GraduateParams) -> int {
    bin_index_of(
        fixed_of_price(launch.price(), TOKEN_DECIMALS as nat),
        chosen_bin_step(config, params) as int,
    )
}

/// Why a graduation is rejected, if it is.
///
/// A launch that is neither active nor pending has graduated already. The
/// curve must hold its threshold, the reward must go to the creator of the
/// launch and the fee to the fee authority of the configuration, the vault
/// must hold the quote units of the three-way split, and every bin of the
/// distribution must be a 32-bit index.
pub open spec fn graduation_error(
    config: Config,
    launch: Launch,
    accounts: GraduateAccounts,
    curve_vault_lamports: u64,
    params: GraduateParams,
) -> Option<LaunchrError> {
    if !launch.graduable() {
        Some(LaunchrError::AlreadyGraduated)
    } else if !launch.at_threshold() {
        Some(LaunchrError::ThresholdNotReached)
    } else if accounts.creator != launch.creator {
        Some(LaunchrError::InvalidCreator)
    } else if accounts.treasury != config.fee_authority {
        Some(LaunchrError::InvalidTreasury)
    } else if curve_vault_lamports < GRADUATION_THRESHOLD {
        Some(LaunchrError::InsufficientGraduationFunds)
    } else if !bins_in_range(
        graduation_bin(config, launch, params) as i32,
        chosen_bins_per_side(params),
    ) {
        Some(LaunchrError::MathOverflow)
    } else {
        None
    }
}

/// Whether `plan` is the plan of the graduation of `launch`.
pub open spec fn is_graduation_plan(
    plan: GraduationPlan,
    config: Config,
    launch: Launch,
    accounts: GraduateAccounts,
    curve_vault_lamports: u64,
    graduation_vault_amount: u64,
    token_vault_amount: u64,
    timestamp: i64,
    params: GraduateParams,
) -> bool {
    let bin_step = chosen_bin_step(config, params);
    let bins = chosen_bins_per_side(params);
    let mints = canonical(launch.mint, config.quote_mint);
    &&& plan.current_price == launch.price()
    &&& plan.price_q64_64 == fixed_of_price(launch.price(), TOKEN_DECIMALS as nat)
    &&& plan.active_bin_index == graduation_bin(config, launch, params)
    &&& plan.bin_array_lower == bin_array_lower_of(plan.active_bin_index as int)
    &&& plan.base_mint == mints.0
    &&& plan.quote_mint == mints.1
    &&& plan.is_inverted == (mints.0 != launch.mint)
    &&& plan.creator_reward == CREATOR_REWARD_LAMPORTS
    &&& plan.treasury_fee == TREASURY_FEE_LAMPORTS
    &&& plan.lp_sol_amount == curve_vault_lamports - CREATOR_REWARD_LAMPORTS
        - TREASURY_FEE_LAMPORTS
    &&& plan.token_amount == capped_add(graduation_vault_amount as int, token_vault_amount as int)
    &&& plan.bin_ids@ == balanced_bin_ids(plan.active_bin_index, bins)
    &&& plan.distribution@ == balanced_shares(bins, plan.token_amount, plan.lp_sol_amount)
    &&& plan.init_pool.program_id == accounts.orbit_program
    &&& plan.init_pool.accounts@ == seq![
        writable(accounts.payer, true),
        writable(accounts.orbit_pool, false),
        writable(accounts.orbit_registry, false),
        readonly(plan.base_mint, false),
        readonly(plan.quote_mint, false),
        readonly(accounts.system_program, false),
    ]
    &&& plan.init_pool.data@ == init_pool_data(
        plan.price_q64_64,
        bin_step,
        config.default_base_fee_bps,
        launch.creator_fee_bps,
    )
    &&& plan.init_vaults.program_id == accounts.orbit_program
    &&& plan.init_vaults.accounts@ == seq![
        writable(accounts.payer, true),
        writable(accounts.orbit_pool, false),
        writable(accounts.orbit_base_vault, false),
        writable(accounts.orbit_quote_vault, false),
        writable(accounts.orbit_creator_fee_vault, false),
        writable(accounts.orbit_holders_fee_vault, false),
        writable(accounts.orbit_nft_fee_vault, false),
        writable(accounts.orbit_protocol_fee_vault, false),
        readonly(plan.base_mint, false),
        readonly(plan.quote_mint, false),
        readonly(accounts.token_program, false),
        readonly(accounts.system_program, false),
    ]
    &&& plan.init_vaults.data@ == INIT_POOL_VAULTS_DISCRIMINATOR@
    &&& plan.create_bin_array.program_id == accounts.orbit_program
    &&& plan.create_bin_array.accounts@ == seq![
        writable(accounts.payer, true),
        writable(accounts.orbit_pool, false),
        writable(accounts.orbit_bin_array, false),
        readonly(accounts.system_program, false),
    ]
    &&& plan.create_bin_array.data@ == CREATE_BIN_ARRAY_DISCRIMINATOR@ + le_bytes(
        as_unsigned_32(plan.bin_array_lower),
        4,
    )
    &&& plan.init_position.program_id == accounts.orbit_program
    &&& plan.init_position.accounts@ == seq![
        writable(accounts.launch_authority, true),
        writable(accounts.orbit_pool, false),
        writable(accounts.orbit_position, false),
        readonly(accounts.system_program, false),
    ]
    &&& plan.init_position.data@ == INIT_POSITION_DISCRIMINATOR@ + le_bytes(POSITION_NONCE as nat, 8)
    &&& plan.add_liquidity.program_id == accounts.orbit_program
    &&& plan.add_liquidity.accounts@ == seq![
        writable(accounts.orbit_pool, false),
        writable(accounts.launch_authority, true),
        writable(accounts.token_vault, false),
        writable(accounts.curve_vault, false),
        writable(accounts.orbit_base_vault, false),
        writable(accounts.orbit_quote_vault, false),
        writable(accounts.orbit_position, false),
        readonly(accounts.token_program, false),
        writable(accounts.orbit_bin_array, false),
    ]
    &&& plan.add_liquidity.data@ == add_liquidity_data(plan.bin_ids@, plan.distribution@)
    &&& plan.event == (LaunchGraduated {
        launch: accounts.launch,
        mint: launch.mint,
        orbit_pool: accounts.orbit_pool,
        sol_liquidity: plan.lp_sol_amount,
        token_liquidity: plan.token_amount,
        final_price: plan.current_price,
        active_bin_index: plan.active_bin_index,
        creator_reward: CREATOR_REWARD_LAMPORTS,
        treasury_fee: TREASURY_FEE_LAMPORTS,
        timestamp,
    })
}

/// Graduate a launch into a pool.
///
/// `curve_vault_lamports`, `graduation_vault_amount` and
/// `token_vault_amount` are what the three vaults of the launch hold. On
/// success the launch is marked as graduated into the pool at `timestamp`,
/// the configuration counts the graduation, and the plan is handed back. On
/// failure nothing changes.
pub fn graduate(
    config: &mut Config,
    launch: &mut Launch,
    accounts: &GraduateAccounts,
    curve_vault_lamports: u64,
    graduation_vault_amount: u64,
    token_vault_amount: u64,
    timestamp: i64,
    params: GraduateParams,
) -> (r: Result<GraduationPlan, LaunchrError>)
    ensures
        match graduation_error(*old(config), *old(launch), *accounts, curve_vault_lamports, params) {
            Some(e) => {
                &&& r is Err
                &&& r->Err_0 == e
                &&& *final(config) == *old(config)
                &&& *final(launch) == *old(launch)
            },
            None => {
                &&& r is Ok
                &&& is_graduation_plan(
                    r->Ok_0,
                    *old(config),
                    *old(launch),
                    *accounts,
                    curve_vault_lamports,
                    graduation_vault_amount,
                    token_vault_amount,
                    timestamp,
                    params,
                )
                &&& *final(config) == old(config).after_graduation()
                &&& *final(launch) == old(launch).after_graduation(accounts.orbit_pool, timestamp)
            },
        },
{
    if !launch.can_graduate() {
        return Err(LaunchrError::AlreadyGraduated);
    }
    if !launch.threshold_reached() {
        return Err(LaunchrError::ThresholdNotReached);
    }
    proof {
        lemma_precedes_is_total(accounts.creator, launch.creator);
        lemma_precedes_is_total(accounts.treasury, config.fee_authority);
    }
    if accounts.creator != launch.creator {
        return Err(LaunchrError::InvalidCreator);
    }
    if accounts.treasury != config.fee_authority {
        return Err(LaunchrError::InvalidTreasury);
    }
    let bin_step_bps: u16 = match params.bin_step_bps {
        Some(step) => step,
        None => config.default_bin_step_bps,
    };
    let num_bins_per_side: u8 = match params.num_liquidity_bins {
        Some(bins) => bins,
        None => DEFAULT_BINS_PER_SIDE,
    };
    let current_price: u64 = launch.current_price();
    let price_q64_64: u128 = price_to_q64_64(current_price, TOKEN_DECIMALS);
    let active_bin_index: i32 = price_to_bin_index(price_q64_64, bin_step_bps);
    let bin_array_lower: i32 = get_bin_array_lower_index(active_bin_index);

    let (base_mint, quote_mint, is_inverted) = get_orbit_mint_assignment(
        &launch.mint,
        &config.quote_mint,
    );

    if curve_vault_lamports < GRADUATION_THRESHOLD {
        return Err(LaunchrError::InsufficientGraduationFunds);
    }
    let lp_sol_amount: u64 = curve_vault_lamports - CREATOR_REWARD_LAMPORTS - TREASURY_FEE_LAMPORTS;
    let token_amount: u64 = graduation_vault_amount.saturating_add(token_vault_amount);

    let (bin_ids, distribution) = match calculate_balanced_distribution(
        active_bin_index,
        num_bins_per_side,
        token_amount,
        lp_sol_amount,
    ) {
        Ok(plan) => plan,
        Err(e) => {
            return Err(e);
        },
    };

    let init_pool: Instruction = build_init_pool_instruction(
        &accounts.orbit_program,
        &accounts.payer,
        &accounts.orbit_pool,
        &accounts.orbit_registry,
        &base_mint,
        &quote_mint,
        &accounts.system_program,
        price_q64_64,
        bin_step_bps,
        config.default_base_fee_bps,
        launch.creator_fee_bps,
    );
    let init_vaults: Instruction = build_init_vaults_instruction(
        &accounts.orbit_program,
        &accounts.payer,
        &accounts.orbit_pool,
        &base_mint,
        &quote_mint,
        &accounts.orbit_base_vault,
        &accounts.orbit_quote_vault,
        &accounts.orbit_creator_fee_vault,
        &accounts.orbit_holders_fee_vault,
        &accounts.orbit_nft_fee_vault,
        &accounts.orbit_protocol_fee_vault,
        &accounts.token_program,
        &accounts.system_program,
    );
    let create_bin_array: Instruction = build_create_bin_array_instruction(
        &accounts.orbit_program,
        &accounts.payer,
        &accounts.orbit_pool,
        &accounts.orbit_bin_array,
        &accounts.system_program,
        bin_array_lower,
    );
    let init_position: Instruction = build_init_position_instruction(
        &accounts.orbit_program,
        &accounts.launch_authority,
        &accounts.orbit_pool,
        &accounts.orbit_position,
        &accounts.system_program,
        POSITION_NONCE,
    );
    let mut bin_arrays: Vec<Address> = Vec::new();
    bin_arrays.push(accounts.orbit_bin_array);
    let add_liquidity: Instruction = build_add_liquidity_v2_instruction(
        &accounts.orbit_program,
        &accounts.orbit_pool,
        &accounts.launch_authority,
        &accounts.token_vault,
        &accounts.curve_vault,
        &accounts.orbit_base_vault,
        &accounts.orbit_quote_vault,
        &accounts.orbit_position,
        &accounts.token_program,
        bin_arrays.as_slice(),
        bin_ids.as_slice(),
        distribution.as_slice(),
    );
    proof {
        let remaining: Seq<AccountMeta> = bin_arrays@.map_values(
            |bin_array: Address| writable(bin_array, false),
        );
        assert(remaining =~= seq![writable(accounts.orbit_bin_array, false)]);
        assert(add_liquidity.accounts@ =~= seq![
            writable(accounts.orbit_pool, false),
            writable(accounts.launch_authority, true),
            writable(accounts.token_vault, false),
            writable(accounts.curve_vault, false),
            writable(accounts.orbit_base_vault, false),
            writable(accounts.orbit_quote_vault, false),
            writable(accounts.orbit_position, false),
            readonly(accounts.token_program, false),
            writable(accounts.orbit_bin_array, false),
        ]);
    }
    let event = LaunchGraduated {
        launch: accounts.launch,
        mint: launch.mint,
        orbit_pool: accounts.orbit_pool,
        sol_liquidity: lp_sol_amount,
        token_liquidity: token_amount,
        final_price: current_price,
        active_bin_index,
        creator_reward: CREATOR_REWARD_LAMPORTS,
        treasury_fee: TREASURY_FEE_LAMPORTS,
        timestamp,
    };

    launch.graduate(accounts.orbit_pool, timestamp);
    config.record_graduation();

    Ok(
        GraduationPlan {
            current_price,
            price_q64_64,
            active_bin_index,
            bin_array_lower,
            base_mint,
            quote_mint,
            is_inverted,
            creator_reward: CREATOR_REWARD_LAMPORTS,
            treasury_fee: TREASURY_FEE_LAMPORTS,
            lp_sol_amount,
            token_amount,
            bin_ids,
            distribution,
            init_pool,
            init_vaults,
            create_bin_array,
            init_position,
            add_liquidity,
            event,
        },
    )
}

} // verus!
