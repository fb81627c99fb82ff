//! What holds of every trade: slippage protection, and the halt of trading
//! once a launch has reached its threshold.

use vstd::prelude::*;
use crate::address::Address;
use crate::error::LaunchrError;
use crate::instructions::buy::{buy_effect, BuyParams, TradeEffect};
use crate::instructions::graduate::{graduation_error, GraduateAccounts, GraduateParams};
use crate::instructions::sell::{sell_effect, SellParams};
use crate::math::bonding_curve::{buy_quote, sell_quote};
use crate::state::config::Config;
use crate::state::launch::{Launch, LaunchStatus};
use crate::state::user_position::UserPosition;

verus! {

/// A buy that asks for more base units than the curve quotes fails with
/// [`LaunchrError::SlippageExceeded`]; since it fails, it changes nothing.
pub proof fn lemma_buy_slippage_is_rejected(
    config: Config,
    launch: Launch,
    position: UserPosition,
    launch_key: Address,
    buyer: Address,
    position_bump: u8,
    timestamp: i64,
    params: BuyParams,
)
    requires
        !config.trading_paused,
        launch.tradeable(),
        buy_quote(
            params.sol_amount,
            launch.virtual_sol_reserve,
            launch.virtual_token_reserve,
            config.protocol_fee_bps,
            launch.creator_fee_bps,
        ) matches Ok(swap) && params.min_tokens_out > swap.amount_out,
    ensures
        buy_effect(config, launch, position, launch_key, buyer, position_bump, timestamp, params)
            == Err::<TradeEffect, LaunchrError>(LaunchrError::SlippageExceeded),
{
}

/// A sale that asks for more quote units than the curve quotes fails with
/// [`LaunchrError::SlippageExceeded`]; since it fails, it changes nothing.
pub proof fn lemma_sell_slippage_is_rejected(
    config: Config,
    launch: Launch,
    position: UserPosition,
    launch_key: Address,
    seller: Address,
    creator: Address,
    seller_token_balance: u64,
    vault_lamports: u64,
    timestamp: i64,
    params: SellParams,
)
    requires
        !config.trading_paused,
        launch.tradeable(),
        position.launch == launch_key,
        position.user == seller,
        launch.creator == creator,
        seller_token_balance >= params.token_amount,
        sell_quote(
            params.token_amount,
            launch.virtual_sol_reserve,
            launch.virtual_token_reserve,
            config.protocol_fee_bps,
            launch.creator_fee_bps,
        ) matches Ok(swap) && params.min_sol_out > swap.amount_out,
    ensures
        sell_effect(
            config,
            launch,
            position,
            launch_key,
            seller,
            creator,
            seller_token_balance,
            vault_lamports,
            timestamp,
            params,
        ) == Err::<TradeEffect, LaunchrError>(LaunchrError::SlippageExceeded),
{
}

/// A trade on a launch that is not active fails: with
/// [`LaunchrError::TradingPaused`] while trading is paused, otherwise with
/// [`LaunchrError::LaunchNotActive`].
pub proof fn lemma_trading_needs_active_launch(
    config: Config,
    launch: Launch,
    position: UserPosition,
    launch_key: Address,
    trader: Address,
    creator: Address,
    position_bump: u8,
    seller_token_balance: u64,
    vault_lamports: u64,
    timestamp: i64,
    buy_params: BuyParams,
    sell_params: SellParams,
)
    requires
        launch.status != LaunchStatus::Active,
    ensures
        buy_effect(
            config,
            launch,
            position,
            launch_key,
            trader,
            position_bump,
            timestamp,
            buy_params,
        ) == Err::<TradeEffect, LaunchrError>(
            if config.trading_paused {
                LaunchrError::TradingPaused
            } else {
                LaunchrError::LaunchNotActive
            },
        ),
        sell_effect(
            config,
            launch,
            position,
            launch_key,
            trader,
            creator,
            seller_token_balance,
            vault_lamports,
            timestamp,
            sell_params,
        ) == Err::<TradeEffect, LaunchrError>(
            if config.trading_paused {
                LaunchrError::TradingPaused
            } else {
                LaunchrError::LaunchNotActive
            },
        ),
{
}

/// Whether the base units of the curve are all accounted for: what the vault
/// holds and what was sold add up to the curve's allocation, and the virtual
/// base reserve is what the vault holds.
pub open spec fn conserves_tokens(launch: Launch) -> bool {
    &&& launch.real_token_reserve + launch.tokens_sold == 800_000_000_000_000_000
    &&& launch.virtual_token_reserve == launch.real_token_reserve
}

/// Whether a position adds up: what was bought is either held or sold.
pub open spec fn adds_up(position: UserPosition) -> bool {
    position.token_balance + position.tokens_sold == position.tokens_bought
}

/// A buy keeps the base units of the curve accounted for: the curve never
/// hands out more than its vault holds, so the vault never holds more than
/// the curve's allocation.
pub proof fn lemma_buy_conserves_tokens(
    config: Config,
    launch: Launch,
    position: UserPosition,
    launch_key: Address,
    buyer: Address,
    position_bump: u8,
    timestamp: i64,
    params: BuyParams,
)
    requires
        conserves_tokens(launch),
        buy_effect(config, launch, position, launch_key, buyer, position_bump, timestamp, params)
            is Ok,
    ensures
        ({
            let effect = buy_effect(
                config,
                launch,
                position,
                launch_key,
                buyer,
                position_bump,
                timestamp,
                params,
            )->Ok_0;
            &&& conserves_tokens(effect.launch)
            &&& effect.launch.real_token_reserve == launch.real_token_reserve
                - effect.settlement.swap.amount_out
            &&& effect.launch.real_token_reserve <= 800_000_000_000_000_000
        }),
{
}

/// A sale of base units that the curve has sold keeps the base units of the
/// curve accounted for.
pub proof fn lemma_sell_conserves_tokens(
    config: Config,
    launch: Launch,
    position: UserPosition,
    launch_key: Address,
    seller: Address,
    creator: Address,
    seller_token_balance: u64,
    vault_lamports: u64,
    timestamp: i64,
    params: SellParams,
)
    requires
        conserves_tokens(launch),
        params.token_amount <= launch.tokens_sold,
        sell_effect(
            config,
            launch,
            position,
            launch_key,
            seller,
            creator,
            seller_token_balance,
            vault_lamports,
            timestamp,
            params,
        ) is Ok,
    ensures
        ({
            let effect = sell_effect(
                config,
                launch,
                position,
                launch_key,
                seller,
                creator,
                seller_token_balance,
                vault_lamports,
                timestamp,
                params,
            )->Ok_0;
            &&& conserves_tokens(effect.launch)
            &&& effect.launch.real_token_reserve == launch.real_token_reserve
                + params.token_amount
            &&& effect.launch.real_token_reserve <= 800_000_000_000_000_000
        }),
{
}

/// A position that adds up still adds up after a sale, and after a buy that
/// does not lift its totals beyond 64 bits.
pub proof fn lemma_position_adds_up(
    position: UserPosition,
    tokens: u64,
    sol_amount: u64,
    timestamp: i64,
)
    requires
        adds_up(position),
    ensures
        position.tokens_bought + tokens <= u64::MAX ==> adds_up(
            position.after_buy(tokens, sol_amount, timestamp),
        ),
        tokens <= position.token_balance ==> adds_up(
            position.after_sell(tokens, sol_amount, timestamp),
        ),
{
}

/// Whether a launch may pass from one status to the other: it may stay as it
/// is, an active launch may come to await graduation, and an active or
/// awaiting launch may graduate. Nothing leads back.
pub open spec fn may_follow(before: LaunchStatus, after: LaunchStatus) -> bool {
    ||| after == before
    ||| before == LaunchStatus::Active && after == LaunchStatus::PendingGraduation
    ||| (before == LaunchStatus::Active || before == LaunchStatus::PendingGraduation) && after
        == LaunchStatus::Graduated
}

/// The status of a launch only moves forward: a buy leaves it active or
/// lets it await graduation, a sale leaves it as it is, and a graduation
/// makes it graduated.
pub proof fn lemma_status_is_one_way(
    config: Config,
    launch: Launch,
    position: UserPosition,
    launch_key: Address,
    trader: Address,
    creator: Address,
    position_bump: u8,
    seller_token_balance: u64,
    vault_lamports: u64,
    timestamp: i64,
    buy_params: BuyParams,
    sell_params: SellParams,
    graduate_params: GraduateParams,
    accounts: GraduateAccounts,
)
    ensures
        buy_effect(
            config,
            launch,
            position,
            launch_key,
            trader,
            position_bump,
            timestamp,
            buy_params,
        ) matches Ok(effect) ==> may_follow(launch.status, effect.launch.status)
            && effect.launch.status != LaunchStatus::Graduated,
        sell_effect(
            config,
            launch,
            position,
            launch_key,
            trader,
            creator,
            seller_token_balance,
            vault_lamports,
            timestamp,
            sell_params,
        ) matches Ok(effect) ==> effect.launch.status == launch.status,
        graduation_error(config, launch, accounts, vault_lamports, graduate_params) is None
            ==> may_follow(
            launch.status,
            launch.after_graduation(accounts.orbit_pool, timestamp).status,
        ),
        launch.status == LaunchStatus::Graduated || launch.status == LaunchStatus::Cancelled
            ==> graduation_error(config, launch, accounts, vault_lamports, graduate_params)
            == Some(LaunchrError::AlreadyGraduated),
{
}

/// The buy that lifts the vault of a launch to its threshold leaves the
/// launch pending graduation, in the same step, and says so in its
/// settlement. A buy that leaves the vault below the threshold leaves the
/// launch active.
pub proof fn lemma_buy_crosses_threshold(
    config: Config,
    launch: Launch,
    position: UserPosition,
    launch_key: Address,
    buyer: Address,
    position_bump: u8,
    timestamp: i64,
    params: BuyParams,
)
    requires
        buy_effect(config, launch, position, launch_key, buyer, position_bump, timestamp, params)
            is Ok,
    ensures
        ({
            let effect = buy_effect(
                config,
                launch,
                position,
                launch_key,
                buyer,
                position_bump,
                timestamp,
                params,
            )->Ok_0;
            &&& effect.launch.real_sol_reserve >= launch.real_sol_reserve
            &&& effect.launch.graduation_threshold == launch.graduation_threshold
            &&& effect.launch.at_threshold() ==> effect.launch.status
                == LaunchStatus::PendingGraduation
            &&& !effect.launch.at_threshold() ==> effect.launch.status == LaunchStatus::Active
            &&& effect.settlement.graduation_pending == effect.launch.at_threshold()
            &&& effect.config.trading_paused == config.trading_paused
        }),
{
}

/// Once a buy has lifted a launch to its threshold, every further buy and
/// every further sale fails with [`LaunchrError::LaunchNotActive`].
pub proof fn lemma_threshold_halts_trading(
    config: Config,
    launch: Launch,
    position: UserPosition,
    launch_key: Address,
    buyer: Address,
    position_bump: u8,
    timestamp: i64,
    params: BuyParams,
    next_position: UserPosition,
    next_trader: Address,
    next_creator: Address,
    next_bump: u8,
    next_token_balance: u64,
    next_vault_lamports: u64,
    next_timestamp: i64,
    next_buy: BuyParams,
    next_sell: SellParams,
)
    requires
        buy_effect(
            config,
            launch,
            position,
            launch_key,
            buyer,
            position_bump,
            timestamp,
            params,
        ) matches Ok(effect) && effect.launch.at_threshold(),
    ensures
        ({
            let effect = buy_effect(
                config,
                launch,
                position,
                launch_key,
                buyer,
                position_bump,
                timestamp,
                params,
            )->Ok_0;
            &&& buy_effect(
                effect.config,
                effect.launch,
                next_position,
                launch_key,
                next_trader,
                next_bump,
                next_timestamp,
                next_buy,
            ) == Err::<TradeEffect, LaunchrError>(LaunchrError::LaunchNotActive)
            &&& sell_effect(
                effect.config,
                effect.launch,
                next_position,
                launch_key,
                next_trader,
                next_creator,
                next_token_balance,
                next_vault_lamports,
                next_timestamp,
                next_sell,
            ) == Err::<TradeEffect, LaunchrError>(LaunchrError::LaunchNotActive)
        }),
{
    lemma_buy_crosses_threshold(
        config,
        launch,
        position,
        launch_key,
        buyer,
        position_bump,
        timestamp,
        params,
    );
}

} // verus!
