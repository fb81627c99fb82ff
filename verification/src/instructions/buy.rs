//! Buying from the curve.

use vstd::prelude::*;
use crate::address::Address;
use crate::error::LaunchrError;
use crate::math::bonding_curve::{buy_quote, calculate_buy, floor_sub, SwapResult};
use crate::state::config::Config;
use crate::state::launch::{Launch, LaunchStatus};
use crate::state::user_position::UserPosition;

verus! {

/// Parameters for buying tokens.
#[derive(Clone, Copy, Debug, PartialEq, Eq, Structural)]
pub struct BuyParams {
    /// Quote units to spend, fee included.
    pub sol_amount: u64,
    /// Least base units to receive.
    pub min_tokens_out: u64,
}

/// Event published when a trade is executed.
#[derive(Clone, Copy, Debug, PartialEq, Eq)]
pub struct TradeExecuted {
    /// The launch traded on.
    pub launch: Address,
    /// The buyer or seller.
    pub trader: Address,
    /// Whether the trade is a buy.
    pub is_buy: bool,
    /// Quote units: spent by a buyer, received by a seller.
    pub sol_amount: u64,
    /// Base units: received by a buyer, sold by a seller.
    pub token_amount: u64,
    /// Price after the trade.
    pub price: u64,
    /// Treasury share of the fee.
    pub protocol_fee: u64,
    /// Creator share of the fee.
    pub creator_fee: u64,
    /// Time of the trade.
    pub timestamp: i64,
}

/// What the caller has to carry out after a trade.
///
/// After a buy, the buyer pays `vault_amount` into the curve vault,
/// `swap.protocol_fee` into the fee vault and `swap.creator_fee` to the
/// creator, and receives `swap.amount_out` base units from the token vault.
/// After a sale, the seller hands the sold base units to the token vault, and
/// the curve vault pays out `vault_amount` in all: `swap.amount_out` to the
/// seller and the two fees to the fee vault and the creator.
#[derive(Clone, Copy, Debug, PartialEq, Eq)]
pub struct Settlement {
    /// The quote that was executed.
    pub swap: SwapResult,
    /// Quote units that enter the curve vault on a buy, or leave it on a
    /// sale.
    pub vault_amount: u64,
    /// Whether the launch now awaits graduation.
    pub graduation_pending: bool,
    /// The event to publish.
    pub event: TradeExecuted,
}

/// The records after a trade, and its settlement.
pub struct TradeEffect {
    /// The configuration after the trade.
    pub config: Config,
    /// The launch after the trade.
    pub launch: Launch,
    /// The trader's position after the trade.
    pub position: UserPosition,
    /// What the caller has to carry out.
    pub settlement: Settlement,
}

/// Whether a position has seen no trade yet.
pub open spec fn is_unused(position: UserPosition) -> bool {
    position.buy_count == 0 && position.sell_count == 0
}

/// What a buy does.
///
/// Trading must not be paused and the launch must be active. The curve
/// quotes the buy at the launch's virtual reserves. The quote must reach the
/// least amount asked for and must not exceed what the token vault holds.
/// Then the launch records the buy with what enters the vault, a position
/// without trades is opened and makes its owner a holder, the position
/// records the buy at the full amount spent, and the configuration counts
/// volume and fee.
pub open spec fn buy_effect(
    config: Config,
    launch: Launch,
    position: UserPosition,
    launch_key: Address,
    buyer: Address,
    position_bump: u8,
    timestamp: i64,
    params: BuyParams,
) -> Result<TradeEffect, LaunchrError> {
    if config.trading_paused {
        Err(LaunchrError::TradingPaused)
    } else if !launch.tradeable() {
        Err(LaunchrError::LaunchNotActive)
    } else {
        match buy_quote(
            params.sol_amount,
            launch.virtual_sol_reserve,
            launch.virtual_token_reserve,
            config.protocol_fee_bps,
            launch.creator_fee_bps,
        ) {
            Err(e) => Err(e),
            Ok(swap) => if swap.amount_out < params.min_tokens_out {
                Err(LaunchrError::SlippageExceeded)
            } else if swap.amount_out > launch.real_token_reserve {
                Err(LaunchrError::InsufficientLiquidity)
            } else {
                let sol_to_vault = floor_sub(
                    floor_sub(params.sol_amount as int, swap.protocol_fee as int),
                    swap.creator_fee as int,
                ) as u64;
                let traded = launch.after_buy(swap.amount_out, sol_to_vault);
                let new_launch = if is_unused(position) {
                    Launch {
                        holder_count: if traded.holder_count == u32::MAX {
                            u32::MAX
                        } else {
                            (traded.holder_count + 1) as u32
                        },
                        ..traded
                    }
                } else {
                    traded
                };
                let opened = if is_unused(position) {
                    position.initialised(launch_key, buyer, position_bump, timestamp)
                } else {
                    position
                };
                Ok(
                    TradeEffect {
                        config: config.after_trade(params.sol_amount, swap.protocol_fee),
                        launch: new_launch,
                        position: opened.after_buy(swap.amount_out, params.sol_amount, timestamp),
                        settlement: Settlement {
                            swap,
                            vault_amount: sol_to_vault,
                            graduation_pending: new_launch.status
                                == LaunchStatus::PendingGraduation,
                            event: TradeExecuted {
                                launch: launch_key,
                                trader: buyer,
                                is_buy: true,
                                sol_amount: params.sol_amount,
                                token_amount: swap.amount_out,
                                price: swap.price_after,
                                protocol_fee: swap.protocol_fee,
                                creator_fee: swap.creator_fee,
                                timestamp,
                            },
                        },
                    },
                )
            },
        }
    }
}

/// Buy tokens from the bonding curve.
///
/// On success the three records are updated and the settlement is handed
/// back. On failure nothing changes.
pub fn buy(
    config: &mut Config,
    launch: &mut Launch,
    user_position: &mut UserPosition,
    launch_key: Address,
    buyer: Address,
    position_bump: u8,
    timestamp: i64,
    params: BuyParams,
) -> (r: Result<Settlement, LaunchrError>)
    ensures
        match buy_effect(
            *old(config),
            *old(launch),
            *old(user_position),
            launch_key,
            buyer,
            position_bump,
            timestamp,
            params,
        ) {
            Ok(effect) => {
                &&& r == Ok::<Settlement, LaunchrError>(effect.settlement)
                &&& *final(config) == effect.config
                &&& *final(launch) == effect.launch
                &&& *final(user_position) == effect.position
            },
            Err(e) => {
                &&& r == Err::<Settlement, LaunchrError>(e)
                &&& *final(config) == *old(config)
                &&& *final(launch) == *old(launch)
                &&& *final(user_position) == *old(user_position)
            },
        },
{
    if config.trading_paused {
        return Err(LaunchrError::TradingPaused);
    }
    if !launch.is_tradeable() {
        return Err(LaunchrError::LaunchNotActive);
    }
    let swap_result: SwapResult = match calculate_buy(
        params.sol_amount,
        launch.virtual_sol_reserve,
        launch.virtual_token_reserve,
        config.protocol_fee_bps,
        launch.creator_fee_bps,
    ) {
        Ok(swap) => swap,
        Err(e) => {
            return Err(e);
        },
    };
    if swap_result.amount_out < params.min_tokens_out {
        return Err(LaunchrError::SlippageExceeded);
    }
    if swap_result.amount_out > launch.real_token_reserve {
        return Err(LaunchrError::InsufficientLiquidity);
    }
    let sol_to_vault: u64 = params.sol_amount.saturating_sub(
        swap_result.protocol_fee,
    ).saturating_sub(swap_result.creator_fee);

    launch.record_buy(swap_result.amount_out, sol_to_vault);

    if user_position.is_new() {
        user_position.init(launch_key, buyer, position_bump, timestamp);
        launch.holder_count = launch.holder_count.saturating_add(1);
    }
    user_position.record_buy(swap_result.amount_out, params.sol_amount, timestamp);

    config.record_trade(params.sol_amount, swap_result.protocol_fee);

    Ok(
        Settlement {
            swap: swap_result,
            vault_amount: sol_to_vault,
            graduation_pending: launch.status == LaunchStatus::PendingGraduation,
            event: TradeExecuted {
                launch: launch_key,
                trader: buyer,
                is_buy: true,
                sol_amount: params.sol_amount,
                token_amount: swap_result.amount_out,
                price: swap_result.price_after,
                protocol_fee: swap_result.protocol_fee,
                creator_fee: swap_result.creator_fee,
                timestamp,
            },
        },
    )
}

} // verus!
