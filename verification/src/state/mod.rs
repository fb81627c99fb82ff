//! The records the protocol keeps: the global configuration, one record per
//! launch, and one per user and launch.

pub mod config;
pub mod launch;
pub mod user_position;
