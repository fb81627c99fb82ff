//! Setting up and changing the global configuration.

use vstd::prelude::*;
use crate::address::Address;
use crate::error::LaunchrError;
use crate::state::config::Config;

verus! {

/// Largest protocol fee that a configuration accepts: 10%.
pub const MAX_PROTOCOL_FEE_BPS: u16 = 1000;

/// Largest default bin step that a configuration accepts: 5%.
pub const MAX_BIN_STEP_BPS: u16 = 500;

/// Parameters for initializing the configuration.
#[derive(Clone, Copy, Debug, PartialEq, Eq)]
pub struct InitConfigParams {
    /// Fee authority address.
    pub fee_authority: Address,
    /// Protocol fee in basis points.
    pub protocol_fee_bps: u16,
    /// Quote amount that triggers graduation.
    pub graduation_threshold: u64,
    /// Program that runs the graduated pools.
    pub orbit_program_id: Address,
    /// Default bin step of graduated pools.
    pub default_bin_step_bps: u16,
    /// Default base fee of graduated pools.
    pub default_base_fee_bps: u16,
}

/// Parameters for updating the configuration. A field that is `None` leaves
/// its setting as it is.
#[derive(Clone, Copy, Debug, PartialEq, Eq)]
pub struct UpdateConfigParams {
    /// New fee authority.
    pub new_fee_authority: Option<Address>,
    /// New protocol fee.
    pub new_protocol_fee_bps: Option<u16>,
    /// New graduation threshold.
    pub new_graduation_threshold: Option<u64>,
    /// Pause or resume launches.
    pub launches_paused: Option<bool>,
    /// Pause or resume trading.
    pub trading_paused: Option<bool>,
}

impl InitConfigParams {
    /// Whether the parameters are in range: a fee of at most 10%, a positive
    /// threshold, and a bin step between 1 and 500 basis points.
    pub open spec fn in_range(self) -> bool {
        &&& self.protocol_fee_bps <= MAX_PROTOCOL_FEE_BPS
        &&& self.graduation_threshold > 0
        &&& 0 < self.default_bin_step_bps <= MAX_BIN_STEP_BPS
    }
}

impl UpdateConfigParams {
    /// Whether the new settings are in range: a fee of at most 10% and a
    /// positive threshold, where they are given.
    pub open spec fn in_range(self) -> bool {
        &&& self.new_protocol_fee_bps matches Some(fee) ==> fee <= MAX_PROTOCOL_FEE_BPS
        &&& self.new_graduation_threshold matches Some(threshold) ==> threshold > 0
    }

    /// The configuration with every given setting replaced.
    pub open spec fn applied_to(self, config: Config) -> Config {
        Config {
            fee_authority: match self.new_fee_authority {
                Some(fee_authority) => fee_authority,
                None => config.fee_authority,
            },
            protocol_fee_bps: match self.new_protocol_fee_bps {
                Some(fee) => fee,
                None => config.protocol_fee_bps,
            },
            graduation_threshold: match self.new_graduation_threshold {
                Some(threshold) => threshold,
                None => config.graduation_threshold,
            },
            launches_paused: match self.launches_paused {
                Some(paused) => paused,
                None => config.launches_paused,
            },
            trading_paused: match self.trading_paused {
                Some(paused) => paused,
                None => config.trading_paused,
            },
            ..config
        }
    }
}

/// Initialize the global configuration.
///
/// Parameters out of range are rejected with
/// [`LaunchrError::InvalidConfig`].
pub fn init_config(
    config: &mut Config,
    admin: Address,
    quote_mint: Address,
    bump: u8,
    params: InitConfigParams,
) -> (r: Result<(), LaunchrError>)
    ensures
        params.in_range() ==> r is Ok && *final(config) == old(config).initialised(
            admin,
            params.fee_authority,
            params.protocol_fee_bps,
            params.graduation_threshold,
            quote_mint,
            params.orbit_program_id,
            params.default_bin_step_bps,
            params.default_base_fee_bps,
            bump,
        ),
        !params.in_range() ==> r == Err::<(), LaunchrError>(LaunchrError::InvalidConfig)
            && *final(config) == *old(config),
{
    if params.protocol_fee_bps > MAX_PROTOCOL_FEE_BPS {
        return Err(LaunchrError::InvalidConfig);
    }
    if params.graduation_threshold == 0 {
        return Err(LaunchrError::InvalidConfig);
    }
    if params.default_bin_step_bps == 0 || params.default_bin_step_bps > MAX_BIN_STEP_BPS {
        return Err(LaunchrError::InvalidConfig);
    }
    config.init(
        admin,
        params.fee_authority,
        params.protocol_fee_bps,
        params.graduation_threshold,
        quote_mint,
        params.orbit_program_id,
        params.default_bin_step_bps,
        params.default_base_fee_bps,
        bump,
    )
}

/// Update configuration parameters, on behalf of `admin`.
///
/// Anyone but the configuration's admin is rejected with
/// [`LaunchrError::Unauthorized`], settings out of range with
/// [`LaunchrError::InvalidConfig`].
pub fn update_config(config: &mut Config, admin: Address, params: UpdateConfigParams) -> (r: Result<
    (),
    LaunchrError,
>)
    ensures
        old(config).admin != admin ==> r == Err::<(), LaunchrError>(LaunchrError::Unauthorized),
        old(config).admin == admin && !params.in_range() ==> r == Err::<(), LaunchrError>(
            LaunchrError::InvalidConfig,
        ),
        old(config).admin == admin && params.in_range() ==> r is Ok,
        r is Ok ==> *final(config) == params.applied_to(*old(config)),
        r is Err ==> *final(config) == *old(config),
{
    proof {
        crate::address::lemma_precedes_is_total(config.admin, admin);
    }
    if config.admin != admin {
        return Err(LaunchrError::Unauthorized);
    }
    if let Some(protocol_fee_bps) = params.new_protocol_fee_bps {
        if protocol_fee_bps > MAX_PROTOCOL_FEE_BPS {
            return Err(LaunchrError::InvalidConfig);
        }
    }
    if let Some(graduation_threshold) = params.new_graduation_threshold {
        if graduation_threshold == 0 {
            return Err(LaunchrError::InvalidConfig);
        }
    }
    if let Some(fee_authority) = params.new_fee_authority {
        config.fee_authority = fee_authority;
    }
    if let Some(protocol_fee_bps) = params.new_protocol_fee_bps {
        config.protocol_fee_bps = protocol_fee_bps;
    }
    if let Some(graduation_threshold) = params.new_graduation_threshold {
        config.graduation_threshold = graduation_threshold;
    }
    if let Some(paused) = params.launches_paused {
        config.launches_paused = paused;
    }
    if let Some(paused) = params.trading_paused {
        config.trading_paused = paused;
    }
    Ok(())
}

/// Transfer the admin authority to a new account, on behalf of `admin`.
///
/// Anyone but the configuration's admin is rejected with
/// [`LaunchrError::Unauthorized`].
pub fn transfer_admin(config: &mut Config, admin: Address, new_admin: Address) -> (r: Result<
    (),
    LaunchrError,
>)
    ensures
        old(config).admin != admin ==> r == Err::<(), LaunchrError>(LaunchrError::Unauthorized)
            && *final(config) == *old(config),
        old(config).admin == admin ==> r is Ok && *final(config) == (Config {
            admin: new_admin,
            ..*old(config)
        }),
{
    proof {
        crate::address::lemma_precedes_is_total(config.admin, admin);
    }
    if config.admin != admin {
        return Err(LaunchrError::Unauthorized);
    }
    config.admin = new_admin;
    Ok(())
}

} // verus!
