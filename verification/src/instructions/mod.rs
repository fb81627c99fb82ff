//! The operations of the protocol, as functions on its records.
//!
//! An operation checks its inputs, updates the records it was given, and
//! hands back what its caller has to carry out: the amounts to move and the
//! event to publish. An operation that fails changes nothing.

pub mod init_config;
pub mod create_launch;
pub mod buy;
pub mod sell;
pub mod orbit_cpi;
pub mod graduate;
pub mod trade_laws;
