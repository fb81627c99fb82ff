//! Bonding-curve token launches that graduate into a binned
//! concentrated-liquidity pool.
//!
//! The crate holds the arithmetic and the bookkeeping of a launch: the
//! constant-product swap engine with its fee split, the launch record and its
//! life cycle, the fixed-point price/bin conversions and the liquidity
//! distribution used at graduation, and the per-user position ledger.
//! Every function comes with a contract that pins its result down.

pub mod address;
pub mod encoding;
pub mod error;
pub mod math;
pub mod seeds;
pub mod state;
pub mod instructions;
