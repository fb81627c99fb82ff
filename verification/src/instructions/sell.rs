//! Selling back to the curve.

use vstd::prelude::*;
use crate::address::{lemma_precedes_is_total, Address};
use crate::error::LaunchrError;
use crate::instructions::buy::{Settlement, TradeEffect, TradeExecuted};
use crate::math::bonding_curve::{calculate_sell, capped_add, sell_quote, SwapResult};
use crate::state::config::Config;
use crate::state::launch::Launch;
use crate::state::user_position::UserPosition;

verus! {

/// Quote units that the curve vault must keep after a payout, so that the
/// vault itself stays funded.
pub const CURVE_VAULT_RENT_MINIMUM: u64 = 890_880;

/// Parameters for selling tokens.
#[derive(Clone, Copy, Debug, PartialEq, Eq, Structural)]
pub struct SellParams {
    /// Base units to sell.
    pub token_amount: u64,
    /// Least quote units to receive.
    pub min_sol_out: u64,
}

/// What a sale does.
///
/// Trading must not be paused, the launch must be active, the position must
/// be the seller's position in this launch, and the creator named must be
/// the creator of the launch. The seller must hold what is sold. The curve
/// quotes the sale at the launch's virtual reserves, and the quote must
/// reach the least amount asked for. The vault must hold the payout, both
/// fees, and its own minimum on top. Then the launch records the sale with
/// all that leaves the vault, the position records it with what the seller
/// receives, and the configuration counts volume and fee.
pub open spec fn sell_effect(
    config: Config,
    launch: Launch,
    position: UserPosition,
    launch_key: Address,
    seller: Address,
    creator: Address,
    seller_token_balance: u64,
    vault_lamports: u64,
    timestamp: i64,
    params: SellParams,
) -> Result<TradeEffect, LaunchrError> {
    if config.trading_paused {
        Err(LaunchrError::TradingPaused)
    } else if !launch.tradeable() {
        Err(LaunchrError::LaunchNotActive)
    } else if position.launch != launch_key {
        Err(LaunchrError::InvalidConfig)
    } else if position.user != seller {
        Err(LaunchrError::Unauthorized)
    } else if launch.creator != creator {
        Err(LaunchrError::InvalidCreator)
    } else if seller_token_balance < params.token_amount {
        Err(LaunchrError::InsufficientLiquidity)
    } else {
        match sell_quote(
            params.token_amount,
            launch.virtual_sol_reserve,
            launch.virtual_token_reserve,
            config.protocol_fee_bps,
            launch.creator_fee_bps,
        ) {
            Err(e) => Err(e),
            Ok(swap) => {
                let total_sol_needed = swap.amount_out + swap.protocol_fee + swap.creator_fee;
                if swap.amount_out < params.min_sol_out {
                    Err(LaunchrError::SlippageExceeded)
                } else if total_sol_needed > u64::MAX {
                    Err(LaunchrError::MathOverflow)
                } else if vault_lamports < capped_add(
                    total_sol_needed,
                    CURVE_VAULT_RENT_MINIMUM as int,
                ) {
                    Err(LaunchrError::InsufficientLiquidity)
                } else if position.token_balance < params.token_amount {
                    Err(LaunchrError::MathOverflow)
                } else {
                    Ok(
                        TradeEffect {
                            config: config.after_trade(swap.amount_out, swap.protocol_fee),
                            launch: launch.after_sell(params.token_amount, total_sol_needed as u64),
                            position: position.after_sell(
                                params.token_amount,
                                swap.amount_out,
                                timestamp,
                            ),
                            settlement: Settlement {
                                swap,
                                vault_amount: total_sol_needed as u64,
                                graduation_pending: false,
                                event: TradeExecuted {
                                    launch: launch_key,
                                    trader: seller,
                                    is_buy: false,
                                    sol_amount: swap.amount_out,
                                    token_amount: params.token_amount,
                                    price: swap.price_after,
                                    protocol_fee: swap.protocol_fee,
                                    creator_fee: swap.creator_fee,
                                    timestamp,
                                },
                            },
                        },
                    )
                }
            },
        }
    }
}

/// Sell tokens back to the bonding curve.
///
/// `creator` is the account that is to receive the creator fee,
/// `seller_token_balance` what the seller's token account holds, and
/// `vault_lamports` what the curve vault holds. On success the three records
/// are updated and the settlement is handed back. On failure nothing
/// changes.
pub fn sell(
    config: &mut Config,
    launch: &mut Launch,
    user_position: &mut UserPosition,
    launch_key: Address,
    seller: Address,
    creator: Address,
    seller_token_balance: u64,
    vault_lamports: u64,
    timestamp: i64,
    params: SellParams,
) -> (r: Result<Settlement, LaunchrError>)
    ensures
        match sell_effect(
            *old(config),
            *old(launch),
            *old(user_position),
            launch_key,
            seller,
            creator,
            seller_token_balance,
            vault_lamports,
            timestamp,
            params,
        ) {
            Ok(effect) => {
                &&& r == Ok::<Settlement, LaunchrError>(effect.settlement)
                &&& *final(config) == effect.config
                &&& *final(launch) == effect.launch
                &&& *final(user_position) == effect.position
            },
            Err(e) => {
                &&& r == Err::<Settlement, LaunchrError>(e)
                &&& *final(config) == *old(config)
                &&& *final(launch) == *old(launch)
                &&& *final(user_position) == *old(user_position)
            },
        },
{
    proof {
        lemma_precedes_is_total(user_position.launch, launch_key);
        lemma_precedes_is_total(user_position.user, seller);
        lemma_precedes_is_total(launch.creator, creator);
    }
    if config.trading_paused {
        return Err(LaunchrError::TradingPaused);
    }
    if !launch.is_tradeable() {
        return Err(LaunchrError::LaunchNotActive);
    }
    if user_position.launch != launch_key {
        return Err(LaunchrError::InvalidConfig);
    }
    if user_position.user != seller {
        return Err(LaunchrError::Unauthorized);
    }
    if launch.creator != creator {
        return Err(LaunchrError::InvalidCreator);
    }
    if seller_token_balance < params.token_amount {
        return Err(LaunchrError::InsufficientLiquidity);
    }
    let swap_result: SwapResult = match calculate_sell(
        params.token_amount,
        launch.virtual_sol_reserve,
        launch.virtual_token_reserve,
        config.protocol_fee_bps,
        launch.creator_fee_bps,
    ) {
        Ok(swap) => swap,
        Err(e) => {
            return Err(e);
        },
    };
    if swap_result.amount_out < params.min_sol_out {
        return Err(LaunchrError::SlippageExceeded);
    }
    let with_protocol_fee: u64 = match swap_result.amount_out.checked_add(swap_result.protocol_fee) {
        Some(sum) => sum,
        None => {
            return Err(LaunchrError::MathOverflow);
        },
    };
    let total_sol_needed: u64 = match with_protocol_fee.checked_add(swap_result.creator_fee) {
        Some(sum) => sum,
        None => {
            return Err(LaunchrError::MathOverflow);
        },
    };
    if vault_lamports < total_sol_needed.saturating_add(CURVE_VAULT_RENT_MINIMUM) {
        return Err(LaunchrError::InsufficientLiquidity);
    }
    if user_position.token_balance < params.token_amount {
        return Err(LaunchrError::MathOverflow);
    }
    launch.record_sell(params.token_amount, total_sol_needed);

    let recorded: Result<(), LaunchrError> = user_position.record_sell(
        params.token_amount,
        swap_result.amount_out,
        timestamp,
    );
    assert(recorded is Ok);

    config.record_trade(swap_result.amount_out, swap_result.protocol_fee);

    Ok(
        Settlement {
            swap: swap_result,
            vault_amount: total_sol_needed,
            graduation_pending: false,
            event: TradeExecuted {
                launch: launch_key,
                trader: seller,
                is_buy: false,
                sol_amount: swap_result.amount_out,
                token_amount: params.token_amount,
                price: swap_result.price_after,
                protocol_fee: swap_result.protocol_fee,
                creator_fee: swap_result.creator_fee,
                timestamp,
            },
        },
    )
}

} // verus!
