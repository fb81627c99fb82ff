//! The failure kinds an operation can report.

use vstd::prelude::*;

verus! {

/// Why an operation was rejected. An operation that fails leaves every record
/// it was given untouched.
#[derive(Clone, Copy, Debug, PartialEq, Eq, Structural)]
pub enum LaunchrError {
    /// Trade amount is too small.
    TradeTooSmall,
    /// Invalid reserves.
    InvalidReserves,
    /// Insufficient output amount.
    InsufficientOutput,
    /// Insufficient liquidity.
    InsufficientLiquidity,
    /// Invalid amount.
    InvalidAmount,
    /// Slippage exceeded.
    SlippageExceeded,
    /// Launch not active.
    LaunchNotActive,
    /// Launch already graduated.
    AlreadyGraduated,
    /// Graduation threshold not reached.
    ThresholdNotReached,
    /// Unauthorized.
    Unauthorized,
    /// Invalid configuration.
    InvalidConfig,
    /// Launches are paused.
    LaunchesPaused,
    /// Trading is paused.
    TradingPaused,
    /// Math overflow.
    MathOverflow,
    /// Invalid mint order for the pool.
    InvalidMintOrder,
    /// Invalid creator address.
    InvalidCreator,
    /// Invalid treasury address.
    InvalidTreasury,
    /// Insufficient funds for the graduation distribution.
    InsufficientGraduationFunds,
}

} // verus!
