//! Creating a launch: checking its metadata and seeding its curve.

use vstd::prelude::*;
use vstd::utf8::encode_utf8;
use crate::address::Address;
use crate::error::LaunchrError;
use crate::state::config::Config;
use crate::state::launch::{
    curve_tokens, lp_reserve_tokens, Launch, LaunchStatus, INITIAL_VIRTUAL_SOL,
    INITIAL_VIRTUAL_TOKENS, TOTAL_SUPPLY,
};

verus! {

/// Creator fee: 0.2% (20 basis points), fixed, taken out of the protocol fee.
pub const CREATOR_FEE_BPS: u16 = 20;

/// Longest name, in bytes.
pub const MAX_NAME_LEN: usize = 32;

/// Longest symbol, in bytes.
pub const MAX_SYMBOL_LEN: usize = 10;

/// Longest metadata URI, in bytes.
pub const MAX_URI_LEN: usize = 200;

/// Parameters for creating a launch.
#[derive(Clone, Debug, PartialEq, Eq)]
pub struct CreateLaunchParams {
    /// Token name, at most 32 bytes.
    pub name: String,
    /// Token symbol, at most 10 bytes.
    pub symbol: String,
    /// Metadata URI, at most 200 bytes.
    pub uri: String,
    /// Twitter handle; bytes beyond the 64th are dropped.
    pub twitter: Option<String>,
    /// Telegram group; bytes beyond the 64th are dropped.
    pub telegram: Option<String>,
    /// Website URL; bytes beyond the 64th are dropped.
    pub website: Option<String>,
    /// Ignored: the creator fee is fixed.
    pub creator_fee_bps: u16,
}

/// Event published when a launch is created.
#[derive(Clone, Debug, PartialEq, Eq)]
pub struct LaunchCreated {
    /// Token mint address.
    pub mint: Address,
    /// Creator of the launch.
    pub creator: Address,
    /// Token name.
    pub name: String,
    /// Token symbol.
    pub symbol: String,
    /// Total token supply.
    pub total_supply: u64,
    /// Quote amount that triggers graduation.
    pub graduation_threshold: u64,
    /// Time of creation.
    pub timestamp: i64,
}

/// A byte string in a buffer of `width` bytes: cut off after `width` bytes,
/// padded with zero bytes up to `width`.
pub open spec fn padded(bytes: Seq<u8>, width: nat) -> Seq<u8> {
    Seq::new(
        width,
        |i: int|
            if i < bytes.len() {
                bytes[i]
            } else {
                0u8
            },
    )
}

/// An optional text in a buffer: the padded bytes of the text, or the buffer
/// as it was where there is no text.
pub open spec fn padded_or(text: Option<String>, before: Seq<u8>, width: nat) -> Seq<u8> {
    match text {
        Some(text) => padded(encode_utf8(text@), width),
        None => before,
    }
}

impl CreateLaunchParams {
    /// Whether name, symbol and URI fit their buffers.
    pub open spec fn fits(self) -> bool {
        &&& encode_utf8(self.name@).len() <= MAX_NAME_LEN
        &&& encode_utf8(self.symbol@).len() <= MAX_SYMBOL_LEN
        &&& encode_utf8(self.uri@).len() <= MAX_URI_LEN
    }
}

/// Whether `after` is the record of a launch just created over `before`:
/// active, the whole curve allocation in the vault, the virtual reserves at
/// their initial values, the creator as the only holder, and the metadata in
/// its buffers. The pool address and the reserved bytes stay as they were.
pub open spec fn is_created_launch(
    after: Launch,
    before: Launch,
    graduation_threshold: u64,
    mint: Address,
    creator: Address,
    bump: u8,
    authority_bump: u8,
    timestamp: i64,
    params: CreateLaunchParams,
) -> bool {
    &&& after.mint == mint
    &&& after.creator == creator
    &&& after.status == LaunchStatus::Active
    &&& after.total_supply == TOTAL_SUPPLY
    &&& after.tokens_sold == 0
    &&& after.graduation_tokens == 200_000_000_000_000_000
    &&& after.creator_tokens == 0
    &&& after.virtual_sol_reserve == INITIAL_VIRTUAL_SOL
    &&& after.virtual_token_reserve == INITIAL_VIRTUAL_TOKENS
    &&& after.real_sol_reserve == 0
    &&& after.real_token_reserve == 800_000_000_000_000_000
    &&& after.graduation_threshold == graduation_threshold
    &&& after.created_at == timestamp
    &&& after.graduated_at == 0
    &&& after.buy_volume == 0
    &&& after.sell_volume == 0
    &&& after.trade_count == 0
    &&& after.holder_count == 1
    &&& after.orbit_pool == before.orbit_pool
    &&& after.creator_fee_bps == CREATOR_FEE_BPS
    &&& after.name@ == padded(encode_utf8(params.name@), 32)
    &&& after.symbol@ == padded(encode_utf8(params.symbol@), 10)
    &&& after.uri@ == padded(encode_utf8(params.uri@), 200)
    &&& after.twitter@ == padded_or(params.twitter, before.twitter@, 64)
    &&& after.telegram@ == padded_or(params.telegram, before.telegram@, 64)
    &&& after.website@ == padded_or(params.website, before.website@, 64)
    &&& after.bump == bump
    &&& after.authority_bump == authority_bump
    &&& after._reserved == before._reserved
}

/// The bytes in a buffer of `N` bytes.
fn fixed_buffer<const N: usize>(bytes: &[u8]) -> (buffer: [u8; N])
    ensures
        buffer@ == padded(bytes@, N as nat),
{
    let mut buffer: [u8; N] = [0u8; N];
    let mut i: usize = 0;
    while i < N && i < bytes.len()
        invariant
            i <= N,
            i <= bytes@.len(),
            forall|j: int| 0 <= j < i ==> buffer@[j] == bytes@[j],
            forall|j: int| i <= j < N ==> buffer@[j] == 0u8,
        decreases N - i,
    {
        buffer[i] = bytes[i];
        i = i + 1;
    }
    assert(buffer@ =~= padded(bytes@, N as nat));
    buffer
}

/// Create a new token launch.
///
/// Rejected with [`LaunchrError::LaunchesPaused`] while launches are paused,
/// and with [`LaunchrError::InvalidConfig`] where the name, the symbol or the
/// URI is longer than its buffer. On success the record is set up, the
/// configuration counts the launch, and the event is handed back. The
/// caller mints the curve allocation and the graduation reserve, which the
/// record holds in `real_token_reserve` and `graduation_tokens`.
pub fn create_launch(
    config: &mut Config,
    launch: &mut Launch,
    mint: Address,
    creator: Address,
    bump: u8,
    authority_bump: u8,
    timestamp: i64,
    params: CreateLaunchParams,
) -> (r: Result<LaunchCreated, LaunchrError>)
    ensures
        old(config).launches_paused ==> r is Err && r->Err_0 == LaunchrError::LaunchesPaused,
        !old(config).launches_paused && !params.fits() ==> r is Err && r->Err_0
            == LaunchrError::InvalidConfig,
        !old(config).launches_paused && params.fits() ==> r is Ok,
        r is Err ==> *final(config) == *old(config) && *final(launch) == *old(launch),
        r matches Ok(event) ==> {
            &&& *final(config) == old(config).after_launch()
            &&& is_created_launch(
                *final(launch),
                *old(launch),
                old(config).graduation_threshold,
                mint,
                creator,
                bump,
                authority_bump,
                timestamp,
                params,
            )
            &&& event.mint == mint
            &&& event.creator == creator
            &&& event.name@ == params.name@
            &&& event.symbol@ == params.symbol@
            &&& event.total_supply == TOTAL_SUPPLY
            &&& event.graduation_threshold == old(config).graduation_threshold
            &&& event.timestamp == timestamp
        },
{
    if config.launches_paused {
        return Err(LaunchrError::LaunchesPaused);
    }
    if params.name.as_str().as_bytes().len() > MAX_NAME_LEN {
        return Err(LaunchrError::InvalidConfig);
    }
    if params.symbol.as_str().as_bytes().len() > MAX_SYMBOL_LEN {
        return Err(LaunchrError::InvalidConfig);
    }
    if params.uri.as_str().as_bytes().len() > MAX_URI_LEN {
        return Err(LaunchrError::InvalidConfig);
    }
    launch.mint = mint;
    launch.creator = creator;
    launch.status = LaunchStatus::Active;

    launch.total_supply = TOTAL_SUPPLY;
    launch.creator_tokens = 0;
    launch.graduation_tokens = lp_reserve_tokens();

    launch.tokens_sold = 0;
    launch.virtual_sol_reserve = INITIAL_VIRTUAL_SOL;
    launch.virtual_token_reserve = INITIAL_VIRTUAL_TOKENS;
    launch.real_sol_reserve = 0;
    launch.real_token_reserve = curve_tokens();

    launch.graduation_threshold = config.graduation_threshold;

    launch.created_at = timestamp;
    launch.graduated_at = 0;

    launch.buy_volume = 0;
    launch.sell_volume = 0;
    launch.trade_count = 0;
    launch.holder_count = 1;

    launch.creator_fee_bps = CREATOR_FEE_BPS;

    launch.name = fixed_buffer::<32>(params.name.as_str().as_bytes());
    launch.symbol = fixed_buffer::<10>(params.symbol.as_str().as_bytes());
    launch.uri = fixed_buffer::<200>(params.uri.as_str().as_bytes());
    match &params.twitter {
        Some(twitter) => {
            launch.twitter = fixed_buffer::<64>(twitter.as_str().as_bytes());
        },
        None => {},
    }
    match &params.telegram {
        Some(telegram) => {
            launch.telegram = fixed_buffer::<64>(telegram.as_str().as_bytes());
        },
        None => {},
    }
    match &params.website {
        Some(website) => {
            launch.website = fixed_buffer::<64>(website.as_str().as_bytes());
        },
        None => {},
    }
    launch.bump = bump;
    launch.authority_bump = authority_bump;

    config.record_launch();

    Ok(
        LaunchCreated {
            mint: launch.mint,
            creator: launch.creator,
            name: params.name,
            symbol: params.symbol,
            total_supply: launch.total_supply,
            graduation_threshold: launch.graduation_threshold,
            timestamp,
        },
    )
}

} // verus!
