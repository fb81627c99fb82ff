//! Protocol-wide settings and statistics.

use vstd::prelude::*;
use crate::address::{zeros, Address};
use crate::error::LaunchrError;

verus! {

/// Default protocol fee: 1% (100 basis points).
pub const PROTOCOL_FEE_BPS: u16 = 100;

/// Default graduation threshold, in quote units.
pub const GRADUATION_THRESHOLD: u64 = 85_000_000_000;

/// Default bin step of a graduated pool: 25 basis points.
pub const BIN_STEP_BPS: u16 = 25;

/// Default base fee of a graduated pool: 30 basis points.
pub const BASE_FEE_BPS: u16 = 30;

/// Global configuration of the protocol.
#[derive(Clone, Copy, Debug, PartialEq, Eq)]
pub struct Config {
    /// Admin authority: can update the configuration and pause launches.
    pub admin: Address,
    /// Fee authority: receives protocol fees.
    pub fee_authority: Address,
    /// Protocol fee in basis points.
    pub protocol_fee_bps: u16,
    /// Quote amount required to graduate.
    pub graduation_threshold: u64,
    /// Quote mint of graduated pools.
    pub quote_mint: Address,
    /// Program that runs the graduated pools.
    pub orbit_program_id: Address,
    /// Default bin step of graduated pools, in basis points.
    pub default_bin_step_bps: u16,
    /// Default base fee of graduated pools, in basis points.
    pub default_base_fee_bps: u16,
    /// Whether new launches are paused.
    pub launches_paused: bool,
    /// Whether trading is paused globally.
    pub trading_paused: bool,
    /// Total number of launches created.
    pub total_launches: u64,
    /// Total number of graduations.
    pub total_graduations: u64,
    /// Total trading volume in quote units.
    pub total_volume_lamports: u128,
    /// Total protocol fees collected in quote units.
    pub total_fees_collected: u64,
    /// Bump seed of the record's address.
    pub bump: u8,
    /// Reserved for future use.
    pub _reserved: [u8; 64],
}

impl Default for Config {
    fn default() -> (r: Self)
        ensures
            r.admin@ == zeros(32),
            r.fee_authority@ == zeros(32),
            r.quote_mint@ == zeros(32),
            r.orbit_program_id@ == zeros(32),
            r.protocol_fee_bps == 0,
            r.graduation_threshold == 0,
            r.default_bin_step_bps == 0,
            r.default_base_fee_bps == 0,
            !r.launches_paused,
            !r.trading_paused,
            r.total_launches == 0,
            r.total_graduations == 0,
            r.total_volume_lamports == 0,
            r.total_fees_collected == 0,
            r.bump == 0,
            r._reserved@ == zeros(64),
    {
        let r = Config {
            admin: Address::default(),
            fee_authority: Address::default(),
            protocol_fee_bps: 0,
            graduation_threshold: 0,
            quote_mint: Address::default(),
            orbit_program_id: Address::default(),
            default_bin_step_bps: 0,
            default_base_fee_bps: 0,
            launches_paused: false,
            trading_paused: false,
            total_launches: 0,
            total_graduations: 0,
            total_volume_lamports: 0,
            total_fees_collected: 0,
            bump: 0,
            _reserved: [0u8; 64],
        };
        assert(r._reserved@ =~= zeros(64));
        r
    }
}

impl Config {
    /// Size of the stored record in bytes, its 8-byte tag included.
    pub const LEN: usize = 257;

    /// The configuration right after initialisation: the given settings,
    /// nothing paused, all statistics at zero.
    pub open spec fn initialised(
        self,
        admin: Address,
        fee_authority: Address,
        protocol_fee_bps: u16,
        graduation_threshold: u64,
        quote_mint: Address,
        orbit_program_id: Address,
        default_bin_step_bps: u16,
        default_base_fee_bps: u16,
        bump: u8,
    ) -> Config {
        Config {
            admin,
            fee_authority,
            protocol_fee_bps,
            graduation_threshold,
            quote_mint,
            orbit_program_id,
            default_bin_step_bps,
            default_base_fee_bps,
            launches_paused: false,
            trading_paused: false,
            total_launches: 0,
            total_graduations: 0,
            total_volume_lamports: 0,
            total_fees_collected: 0,
            bump,
            _reserved: self._reserved,
        }
    }

    /// The configuration after one more trade of the given volume and fee.
    pub open spec fn after_trade(self, volume: u64, protocol_fee: u64) -> Config {
        Config {
            total_volume_lamports: if self.total_volume_lamports + volume > u128::MAX {
                u128::MAX
            } else {
                (self.total_volume_lamports + volume) as u128
            },
            total_fees_collected: if self.total_fees_collected + protocol_fee > u64::MAX {
                u64::MAX
            } else {
                (self.total_fees_collected + protocol_fee) as u64
            },
            ..self
        }
    }

    /// The configuration after one more launch.
    pub open spec fn after_launch(self) -> Config {
        Config {
            total_launches: if self.total_launches == u64::MAX {
                u64::MAX
            } else {
                (self.total_launches + 1) as u64
            },
            ..self
        }
    }

    /// The configuration after one more graduation.
    pub open spec fn after_graduation(self) -> Config {
        Config {
            total_graduations: if self.total_graduations == u64::MAX {
                u64::MAX
            } else {
                (self.total_graduations + 1) as u64
            },
            ..self
        }
    }

    /// Initialize a new config.
    pub fn init(
        &mut self,
        admin: Address,
        fee_authority: Address,
        protocol_fee_bps: u16,
        graduation_threshold: u64,
        quote_mint: Address,
        orbit_program_id: Address,
        default_bin_step_bps: u16,
        default_base_fee_bps: u16,
        bump: u8,
    ) -> (r: Result<(), LaunchrError>)
        ensures
            r is Ok,
            *final(self) == old(self).initialised(
                admin,
                fee_authority,
                protocol_fee_bps,
                graduation_threshold,
                quote_mint,
                orbit_program_id,
                default_bin_step_bps,
                default_base_fee_bps,
                bump,
            ),
    {
        self.admin = admin;
        self.fee_authority = fee_authority;
        self.protocol_fee_bps = protocol_fee_bps;
        self.graduation_threshold = graduation_threshold;
        self.quote_mint = quote_mint;
        self.orbit_program_id = orbit_program_id;
        self.default_bin_step_bps = default_bin_step_bps;
        self.default_base_fee_bps = default_base_fee_bps;
        self.launches_paused = false;
        self.trading_paused = false;
        self.total_launches = 0;
        self.total_graduations = 0;
        self.total_volume_lamports = 0;
        self.total_fees_collected = 0;
        self.bump = bump;
        Ok(())
    }

    /// Record a new launch.
    pub fn record_launch(&mut self)
        ensures
            *final(self) == old(self).after_launch(),
    {
        self.total_launches = self.total_launches.saturating_add(1);
    }

    /// Record a graduation.
    pub fn record_graduation(&mut self)
        ensures
            *final(self) == old(self).after_graduation(),
    {
        self.total_graduations = self.total_graduations.saturating_add(1);
    }

    /// Record the volume and the protocol fee of a trade.
    pub fn record_trade(&mut self, volume: u64, protocol_fee: u64)
        ensures
            *final(self) == old(self).after_trade(volume, protocol_fee),
    {
        self.total_volume_lamports = self.total_volume_lamports.saturating_add(volume as u128);
        self.total_fees_collected = self.total_fees_collected.saturating_add(protocol_fee);
    }
}

} // verus!
