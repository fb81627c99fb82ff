use launchr::address::Address;
use launchr::error::LaunchrError;
use launchr::instructions::buy::{buy, BuyParams, Settlement, TradeExecuted};
use launchr::instructions::create_launch::{create_launch, CreateLaunchParams, LaunchCreated, CREATOR_FEE_BPS};
use launchr::instructions::graduate::{
    calculate_balanced_distribution, graduate, GraduateAccounts, GraduateParams, LaunchGraduated,
    ACTIVE_BIN_PCT, BASE_ALLOCATION_PCT, DEFAULT_BINS_PER_SIDE, QUOTE_ALLOCATION_PCT,
};
use launchr::instructions::init_config::{
    init_config, transfer_admin, update_config, InitConfigParams, UpdateConfigParams,
};
use launchr::instructions::orbit_cpi::{
    build_add_liquidity_v2_instruction, build_create_bin_array_instruction,
    build_init_pool_instruction, build_init_position_instruction, build_init_vaults_instruction,
    AccountMeta,
};
use launchr::instructions::sell::{sell, SellParams, CURVE_VAULT_RENT_MINIMUM};
use launchr::math::bonding_curve::{calculate_buy, SwapResult};
use launchr::state::config::Config;
use launchr::state::launch::{Launch, LaunchStatus};
use launchr::state::user_position::UserPosition;

fn key(tag: u8) -> Address {
    Address::new_from_array([tag; 32])
}

const ADMIN: u8 = 1;
const FEE_AUTHORITY: u8 = 2;
const QUOTE_MINT: u8 = 3;
const ORBIT_PROGRAM: u8 = 4;
const MINT: u8 = 5;
const CREATOR: u8 = 6;
const LAUNCH: u8 = 7;
const TRADER: u8 = 8;

fn init_params() -> InitConfigParams {
    InitConfigParams {
        fee_authority: key(FEE_AUTHORITY),
        protocol_fee_bps: 100,
        graduation_threshold: 85_000_000_000,
        orbit_program_id: key(ORBIT_PROGRAM),
        default_bin_step_bps: 25,
        default_base_fee_bps: 30,
    }
}

fn config() -> Config {
    let mut config = Config::default();
    init_config(&mut config, key(ADMIN), key(QUOTE_MINT), 255, init_params()).unwrap();
    config
}

fn launch_params() -> CreateLaunchParams {
    CreateLaunchParams {
        name: "Moon Cat".to_string(),
        symbol: "MCAT".to_string(),
        uri: "https://example.org/mcat.json".to_string(),
        twitter: Some("@mooncat".to_string()),
        telegram: None,
        website: None,
        creator_fee_bps: 500,
    }
}

fn launch(config: &mut Config) -> Launch {
    let mut launch = Launch::default();
    create_launch(config, &mut launch, key(MINT), key(CREATOR), 254, 253, 1_000, launch_params()).unwrap();
    launch
}

fn no_update() -> UpdateConfigParams {
    UpdateConfigParams {
        new_fee_authority: None,
        new_protocol_fee_bps: None,
        new_graduation_threshold: None,
        launches_paused: None,
        trading_paused: None,
    }
}

#[test]
fn init_config_sets_the_configuration() {
    let config = config();
    assert_eq!(config.admin, key(ADMIN));
    assert_eq!(config.fee_authority, key(FEE_AUTHORITY));
    assert_eq!(config.quote_mint, key(QUOTE_MINT));
    assert_eq!(config.orbit_program_id, key(ORBIT_PROGRAM));
    assert_eq!(config.protocol_fee_bps, 100);
    assert_eq!(config.graduation_threshold, 85_000_000_000);
    assert_eq!(config.default_bin_step_bps, 25);
    assert_eq!(config.default_base_fee_bps, 30);
    assert_eq!(config.bump, 255);
}

#[test]
fn init_config_rejects_settings_out_of_range() {
    let mut bad = Vec::new();
    bad.push(InitConfigParams { protocol_fee_bps: 1001, ..init_params() });
    bad.push(InitConfigParams { graduation_threshold: 0, ..init_params() });
    bad.push(InitConfigParams { default_bin_step_bps: 0, ..init_params() });
    bad.push(InitConfigParams { default_bin_step_bps: 501, ..init_params() });
    for params in bad {
        let mut config = Config::default();
        assert_eq!(
            init_config(&mut config, key(ADMIN), key(QUOTE_MINT), 255, params),
            Err(LaunchrError::InvalidConfig)
        );
        assert_eq!(config, Config::default());
    }
    let mut config = Config::default();
    let edge = InitConfigParams { protocol_fee_bps: 1000, default_bin_step_bps: 500, ..init_params() };
    assert_eq!(init_config(&mut config, key(ADMIN), key(QUOTE_MINT), 255, edge), Ok(()));
    let edge = InitConfigParams { graduation_threshold: 1, default_bin_step_bps: 1, ..init_params() };
    assert_eq!(init_config(&mut config, key(ADMIN), key(QUOTE_MINT), 255, edge), Ok(()));
}

#[test]
fn update_config_replaces_what_is_given() {
    let mut config = config();
    let params = UpdateConfigParams {
        new_fee_authority: Some(key(9)),
        new_protocol_fee_bps: Some(250),
        new_graduation_threshold: None,
        launches_paused: Some(true),
        trading_paused: None,
    };
    assert_eq!(update_config(&mut config, key(ADMIN), params), Ok(()));
    assert_eq!(config.fee_authority, key(9));
    assert_eq!(config.protocol_fee_bps, 250);
    assert_eq!(config.graduation_threshold, 85_000_000_000);
    assert!(config.launches_paused);
    assert!(!config.trading_paused);

    let params = UpdateConfigParams {
        new_graduation_threshold: Some(7),
        launches_paused: Some(false),
        trading_paused: Some(true),
        ..no_update()
    };
    assert_eq!(update_config(&mut config, key(ADMIN), params), Ok(()));
    assert_eq!(config.graduation_threshold, 7);
    assert!(!config.launches_paused);
    assert!(config.trading_paused);
    assert_eq!(config.fee_authority, key(9));
}

#[test]
fn update_config_rejects_strangers_and_settings_out_of_range() {
    let mut config = config();
    let before = config;
    let params = UpdateConfigParams { trading_paused: Some(true), ..no_update() };
    assert_eq!(update_config(&mut config, key(CREATOR), params), Err(LaunchrError::Unauthorized));
    assert_eq!(config, before);

    let params = UpdateConfigParams {
        new_fee_authority: Some(key(9)),
        new_protocol_fee_bps: Some(1001),
        ..no_update()
    };
    assert_eq!(update_config(&mut config, key(ADMIN), params), Err(LaunchrError::InvalidConfig));
    assert_eq!(config, before);

    let params = UpdateConfigParams {
        launches_paused: Some(true),
        new_graduation_threshold: Some(0),
        ..no_update()
    };
    assert_eq!(update_config(&mut config, key(ADMIN), params), Err(LaunchrError::InvalidConfig));
    assert_eq!(config, before);
}

#[test]
fn transfer_admin_hands_over_to_the_new_admin() {
    let mut config = config();
    let before = config;
    assert_eq!(transfer_admin(&mut config, key(CREATOR), key(9)), Err(LaunchrError::Unauthorized));
    assert_eq!(config, before);
    assert_eq!(transfer_admin(&mut config, key(ADMIN), key(9)), Ok(()));
    assert_eq!(config.admin, key(9));
    assert_eq!(transfer_admin(&mut config, key(ADMIN), key(ADMIN)), Err(LaunchrError::Unauthorized));
    assert_eq!(update_config(&mut config, key(9), no_update()), Ok(()));
}

#[test]
fn create_launch_seeds_the_curve() {
    let mut config = config();
    let mut launch = Launch::default();
    let event =
        create_launch(&mut config, &mut launch, key(MINT), key(CREATOR), 254, 253, 1_000, launch_params())
            .unwrap();
    assert_eq!(
        event,
        LaunchCreated {
            mint: key(MINT),
            creator: key(CREATOR),
            name: "Moon Cat".to_string(),
            symbol: "MCAT".to_string(),
            total_supply: 1_000_000_000_000_000_000,
            graduation_threshold: 85_000_000_000,
            timestamp: 1_000,
        }
    );
    assert_eq!(config.total_launches, 1);
    assert_eq!(launch.mint, key(MINT));
    assert_eq!(launch.creator, key(CREATOR));
    assert_eq!(launch.status, LaunchStatus::Active);
    assert_eq!(launch.total_supply, 1_000_000_000_000_000_000);
    assert_eq!(launch.graduation_tokens, 200_000_000_000_000_000);
    assert_eq!(launch.creator_tokens, 0);
    assert_eq!(launch.tokens_sold, 0);
    assert_eq!(launch.virtual_sol_reserve, 30_000_000_000);
    assert_eq!(launch.virtual_token_reserve, 800_000_000_000_000_000);
    assert_eq!(launch.real_sol_reserve, 0);
    assert_eq!(launch.real_token_reserve, 800_000_000_000_000_000);
    assert_eq!(launch.graduation_threshold, 85_000_000_000);
    assert_eq!(launch.created_at, 1_000);
    assert_eq!(launch.graduated_at, 0);
    assert_eq!(launch.holder_count, 1);
    assert_eq!(launch.creator_fee_bps, 20);
    assert_eq!(CREATOR_FEE_BPS, 20);
    assert_eq!(launch.bump, 254);
    assert_eq!(launch.authority_bump, 253);
    assert_eq!(launch.name_str(), "Moon Cat");
    assert_eq!(launch.symbol_str(), "MCAT");
    assert_eq!(&launch.uri[..29], b"https://example.org/mcat.json");
    assert_eq!(&launch.uri[29..], &[0u8; 171][..]);
    assert_eq!(&launch.twitter[..8], b"@mooncat");
    assert_eq!(&launch.twitter[8..], &[0u8; 56][..]);
    assert_eq!(launch.telegram, [0u8; 64]);
    assert_eq!(launch.website, [0u8; 64]);
}

#[test]
fn create_launch_overwrites_old_metadata_and_cuts_long_links() {
    let mut config = config();
    let mut launch = Launch::default();
    launch.name = [b'z'; 32];
    launch.telegram = [b't'; 64];
    launch.orbit_pool = key(9);
    let params = CreateLaunchParams {
        name: "ab".to_string(),
        website: Some("w".repeat(70)),
        ..launch_params()
    };
    create_launch(&mut config, &mut launch, key(MINT), key(CREATOR), 1, 2, 3, params).unwrap();
    let mut name = [0u8; 32];
    name[0] = b'a';
    name[1] = b'b';
    assert_eq!(launch.name, name);
    assert_eq!(launch.telegram, [b't'; 64]);
    assert_eq!(launch.website, [b'w'; 64]);
    assert_eq!(launch.orbit_pool, key(9));
}

#[test]
fn create_launch_cuts_a_link_inside_a_character() {
    let mut config = config();
    let mut launch = Launch::default();
    let link = format!("{}€", "x".repeat(63));
    let params = CreateLaunchParams { telegram: Some(link), ..launch_params() };
    create_launch(&mut config, &mut launch, key(MINT), key(CREATOR), 1, 2, 3, params).unwrap();
    assert_eq!(&launch.telegram[..63], &[b'x'; 63][..]);
    assert_eq!(launch.telegram[63], 0xe2);
}

#[test]
fn create_launch_rejects_long_metadata_and_paused_launches() {
    let mut config = config();
    let before = config;
    let mut bad = Vec::new();
    bad.push(CreateLaunchParams { name: "n".repeat(33), ..launch_params() });
    bad.push(CreateLaunchParams { symbol: "s".repeat(11), ..launch_params() });
    bad.push(CreateLaunchParams { uri: "u".repeat(201), ..launch_params() });
    bad.push(CreateLaunchParams { name: "é".repeat(17), ..launch_params() });
    for params in bad {
        let mut launch = Launch::default();
        assert_eq!(
            create_launch(&mut config, &mut launch, key(MINT), key(CREATOR), 1, 2, 3, params),
            Err(LaunchrError::InvalidConfig)
        );
        assert_eq!(launch, Launch::default());
        assert_eq!(config, before);
    }
    let mut launch = Launch::default();
    let full = CreateLaunchParams {
        name: "n".repeat(32),
        symbol: "s".repeat(10),
        uri: "u".repeat(200),
        ..launch_params()
    };
    assert!(create_launch(&mut config, &mut launch, key(MINT), key(CREATOR), 1, 2, 3, full).is_ok());
    assert_eq!(launch.name, [b'n'; 32]);
    assert_eq!(launch.symbol, [b's'; 10]);
    assert_eq!(launch.uri, [b'u'; 200]);

    config.launches_paused = true;
    let paused = config;
    let mut launch = Launch::default();
    assert_eq!(
        create_launch(&mut config, &mut launch, key(MINT), key(CREATOR), 1, 2, 3, launch_params()),
        Err(LaunchrError::LaunchesPaused)
    );
    assert_eq!(launch, Launch::default());
    assert_eq!(config, paused);
}

#[test]
fn buy_updates_the_three_records() {
    let mut config = config();
    let mut launch = launch(&mut config);
    let mut position = UserPosition::default();
    let params = BuyParams { sol_amount: 1_000_000_000, min_tokens_out: 25_556_631_171_345_596 };
    let settlement =
        buy(&mut config, &mut launch, &mut position, key(LAUNCH), key(TRADER), 250, 2_000, params).unwrap();
    assert_eq!(
        settlement,
        Settlement {
            swap: SwapResult {
                amount_out: 25_556_631_171_345_596,
                protocol_fee: 8_000_000,
                creator_fee: 2_000_000,
                total_fee: 10_000_000,
                new_sol_reserve: 30_990_000_000,
                new_token_reserve: 774_443_368_828_654_404,
                price_after: 40,
                price_impact_bps: 810,
            },
            vault_amount: 990_000_000,
            graduation_pending: false,
            event: TradeExecuted {
                launch: key(LAUNCH),
                trader: key(TRADER),
                is_buy: true,
                sol_amount: 1_000_000_000,
                token_amount: 25_556_631_171_345_596,
                price: 40,
                protocol_fee: 8_000_000,
                creator_fee: 2_000_000,
                timestamp: 2_000,
            },
        }
    );
    assert_eq!(launch.virtual_sol_reserve, 30_990_000_000);
    assert_eq!(launch.virtual_token_reserve, 774_443_368_828_654_404);
    assert_eq!(launch.real_sol_reserve, 990_000_000);
    assert_eq!(launch.real_token_reserve, 774_443_368_828_654_404);
    assert_eq!(launch.tokens_sold, 25_556_631_171_345_596);
    assert_eq!(launch.buy_volume, 990_000_000);
    assert_eq!(launch.trade_count, 1);
    assert_eq!(launch.holder_count, 2);
    assert_eq!(launch.status, LaunchStatus::Active);
    assert_eq!(position.launch, key(LAUNCH));
    assert_eq!(position.user, key(TRADER));
    assert_eq!(position.bump, 250);
    assert_eq!(position.first_trade_at, 2_000);
    assert_eq!(position.tokens_bought, 25_556_631_171_345_596);
    assert_eq!(position.sol_spent, 1_000_000_000);
    assert_eq!(position.buy_count, 1);
    assert_eq!(config.total_volume_lamports, 1_000_000_000);
    assert_eq!(config.total_fees_collected, 8_000_000);

    // A second buy of the same trader opens nothing.
    let params = BuyParams { sol_amount: 1_000_000, min_tokens_out: 0 };
    buy(&mut config, &mut launch, &mut position, key(LAUNCH), key(9), 9, 2_001, params).unwrap();
    assert_eq!(launch.holder_count, 2);
    assert_eq!(position.user, key(TRADER));
    assert_eq!(position.bump, 250);
    assert_eq!(position.first_trade_at, 2_000);
    assert_eq!(position.last_trade_at, 2_001);
    assert_eq!(position.buy_count, 2);
}

#[test]
fn buy_asking_for_one_more_than_quoted_fails_and_changes_nothing() {
    let mut config = config();
    let mut launch = launch(&mut config);
    let mut position = UserPosition::default();
    let quoted = calculate_buy(
        1_000_000_000,
        launch.virtual_sol_reserve,
        launch.virtual_token_reserve,
        config.protocol_fee_bps,
        launch.creator_fee_bps,
    )
    .unwrap()
    .amount_out;
    let (config_before, launch_before, position_before) = (config, launch, position);
    let params = BuyParams { sol_amount: 1_000_000_000, min_tokens_out: quoted + 1 };
    assert_eq!(
        buy(&mut config, &mut launch, &mut position, key(LAUNCH), key(TRADER), 250, 2_000, params),
        Err(LaunchrError::SlippageExceeded)
    );
    assert_eq!(config, config_before);
    assert_eq!(launch, launch_before);
    assert_eq!(position, position_before);
    let params = BuyParams { sol_amount: 1_000_000_000, min_tokens_out: quoted };
    assert!(buy(&mut config, &mut launch, &mut position, key(LAUNCH), key(TRADER), 250, 2_000, params).is_ok());
}

#[test]
fn buy_is_rejected_when_paused_or_beyond_the_vault() {
    let mut config = config();
    let mut launch = launch(&mut config);
    let mut position = UserPosition::default();
    let params = BuyParams { sol_amount: 1_000_000_000, min_tokens_out: 0 };

    launch.real_token_reserve = 25_556_631_171_345_595;
    let launch_before = launch;
    assert_eq!(
        buy(&mut config, &mut launch, &mut position, key(LAUNCH), key(TRADER), 250, 2_000, params),
        Err(LaunchrError::InsufficientLiquidity)
    );
    assert_eq!(launch, launch_before);

    let small = BuyParams { sol_amount: 999, min_tokens_out: 0 };
    assert_eq!(
        buy(&mut config, &mut launch, &mut position, key(LAUNCH), key(TRADER), 250, 2_000, small),
        Err(LaunchrError::TradeTooSmall)
    );

    config.trading_paused = true;
    launch.status = LaunchStatus::Graduated;
    assert_eq!(
        buy(&mut config, &mut launch, &mut position, key(LAUNCH), key(TRADER), 250, 2_000, params),
        Err(LaunchrError::TradingPaused)
    );
    config.trading_paused = false;
    assert_eq!(
        buy(&mut config, &mut launch, &mut position, key(LAUNCH), key(TRADER), 250, 2_000, params),
        Err(LaunchrError::LaunchNotActive)
    );
    launch.status = LaunchStatus::Cancelled;
    assert_eq!(
        buy(&mut config, &mut launch, &mut position, key(LAUNCH), key(TRADER), 250, 2_000, params),
        Err(LaunchrError::LaunchNotActive)
    );
    assert_eq!(position, UserPosition::default());
}

#[test]
fn buy_that_crosses_the_threshold_halts_trading() {
    let mut config = config();
    let mut launch = launch(&mut config);
    launch.real_sol_reserve = 85_000_000_000 - 1;
    launch.virtual_sol_reserve = 30_000_000_000 + 85_000_000_000 - 1;
    launch.virtual_token_reserve = 300_000_000_000_000_000;
    launch.real_token_reserve = 300_000_000_000_000_000;
    launch.tokens_sold = 500_000_000_000_000_000;
    let mut position = UserPosition::default();
    let params = BuyParams { sol_amount: 1_000_000, min_tokens_out: 0 };
    let settlement =
        buy(&mut config, &mut launch, &mut position, key(LAUNCH), key(TRADER), 250, 2_000, params).unwrap();
    assert_eq!(settlement.swap.amount_out, 2_582_586_462_974);
    assert_eq!(settlement.vault_amount, 990_000);
    assert!(settlement.graduation_pending);
    assert_eq!(launch.real_sol_reserve, 85_000_989_999);
    assert_eq!(launch.status, LaunchStatus::PendingGraduation);

    let launch_before = launch;
    assert_eq!(
        buy(&mut config, &mut launch, &mut position, key(LAUNCH), key(TRADER), 250, 2_001, params),
        Err(LaunchrError::LaunchNotActive)
    );
    let sale = SellParams { token_amount: 1_000_000_000_000, min_sol_out: 0 };
    assert_eq!(
        sell(
            &mut config,
            &mut launch,
            &mut position,
            key(LAUNCH),
            key(TRADER),
            key(CREATOR),
            2_582_586_462_974,
            85_000_989_999 + CURVE_VAULT_RENT_MINIMUM,
            2_002,
            sale,
        ),
        Err(LaunchrError::LaunchNotActive)
    );
    assert_eq!(launch, launch_before);
}

fn bought() -> (Config, Launch, UserPosition) {
    let mut config = config();
    let mut launch = launch(&mut config);
    let mut position = UserPosition::default();
    let params = BuyParams { sol_amount: 1_000_000_000, min_tokens_out: 0 };
    buy(&mut config, &mut launch, &mut position, key(LAUNCH), key(TRADER), 250, 2_000, params).unwrap();
    (config, launch, position)
}

#[test]
fn sell_updates_the_three_records() {
    let (mut config, mut launch, mut position) = bought();
    let params = SellParams { token_amount: 10_000_000_000_000_000, min_sol_out: 391_106_628 };
    let settlement = sell(
        &mut config,
        &mut launch,
        &mut position,
        key(LAUNCH),
        key(TRADER),
        key(CREATOR),
        25_556_631_171_345_596,
        990_000_000 + CURVE_VAULT_RENT_MINIMUM,
        3_000,
        params,
    )
    .unwrap();
    assert_eq!(
        settlement,
        Settlement {
            swap: SwapResult {
                amount_out: 391_106_628,
                protocol_fee: 3_160_457,
                creator_fee: 790_114,
                total_fee: 3_950_571,
                new_sol_reserve: 30_594_942_801,
                new_token_reserve: 784_443_368_828_654_404,
                price_after: 39,
                price_impact_bps: 250,
            },
            vault_amount: 395_057_199,
            graduation_pending: false,
            event: TradeExecuted {
                launch: key(LAUNCH),
                trader: key(TRADER),
                is_buy: false,
                sol_amount: 391_106_628,
                token_amount: 10_000_000_000_000_000,
                price: 39,
                protocol_fee: 3_160_457,
                creator_fee: 790_114,
                timestamp: 3_000,
            },
        }
    );
    assert_eq!(launch.virtual_sol_reserve, 30_594_942_801);
    assert_eq!(launch.virtual_token_reserve, 784_443_368_828_654_404);
    assert_eq!(launch.real_sol_reserve, 594_942_801);
    assert_eq!(launch.real_token_reserve, 784_443_368_828_654_404);
    assert_eq!(launch.tokens_sold, 15_556_631_171_345_596);
    assert_eq!(launch.sell_volume, 395_057_199);
    assert_eq!(launch.trade_count, 2);
    assert_eq!(position.tokens_sold, 10_000_000_000_000_000);
    assert_eq!(position.token_balance, 15_556_631_171_345_596);
    assert_eq!(position.sol_received, 391_106_628);
    assert_eq!(position.sell_count, 1);
    assert_eq!(position.last_trade_at, 3_000);
    assert_eq!(config.total_volume_lamports, 1_391_106_628);
    assert_eq!(config.total_fees_collected, 11_160_457);
}

#[test]
fn sell_rejections_change_nothing() {
    let (mut config, mut launch, mut position) = bought();
    let (config_before, launch_before, position_before) = (config, launch, position);
    let params = SellParams { token_amount: 10_000_000_000_000_000, min_sol_out: 0 };
    let held = 25_556_631_171_345_596u64;
    let vault = 990_000_000 + CURVE_VAULT_RENT_MINIMUM;

    let slipped = SellParams { min_sol_out: 391_106_629, ..params };
    assert_eq!(
        sell(
            &mut config,
            &mut launch,
            &mut position,
            key(LAUNCH),
            key(TRADER),
            key(CREATOR),
            held,
            vault,
            3_000,
            slipped,
        ),
        Err(LaunchrError::SlippageExceeded)
    );
    assert_eq!(
        sell(
            &mut config,
            &mut launch,
            &mut position,
            key(9),
            key(TRADER),
            key(CREATOR),
            held,
            vault,
            3_000,
            params,
        ),
        Err(LaunchrError::InvalidConfig)
    );
    assert_eq!(
        sell(
            &mut config,
            &mut launch,
            &mut position,
            key(LAUNCH),
            key(9),
            key(CREATOR),
            held,
            vault,
            3_000,
            params,
        ),
        Err(LaunchrError::Unauthorized)
    );
    assert_eq!(
        sell(
            &mut config,
            &mut launch,
            &mut position,
            key(LAUNCH),
            key(TRADER),
            key(CREATOR),
            9_999_999_999_999_999,
            vault,
            3_000,
            params,
        ),
        Err(LaunchrError::InsufficientLiquidity)
    );
    assert_eq!(
        sell(
            &mut config,
            &mut launch,
            &mut position,
            key(LAUNCH),
            key(TRADER),
            key(CREATOR),
            held,
            395_057_199 + CURVE_VAULT_RENT_MINIMUM - 1,
            3_000,
            params,
        ),
        Err(LaunchrError::InsufficientLiquidity)
    );
    assert_eq!(
        sell(&mut config, &mut launch, &mut position, key(LAUNCH), key(TRADER), key(9), held, vault, 3_000, params),
        Err(LaunchrError::InvalidCreator)
    );
    let nothing = SellParams { token_amount: 0, min_sol_out: 0 };
    assert_eq!(
        sell(
            &mut config,
            &mut launch,
            &mut position,
            key(LAUNCH),
            key(TRADER),
            key(CREATOR),
            held,
            vault,
            3_000,
            nothing,
        ),
        Err(LaunchrError::TradeTooSmall)
    );
    assert_eq!((config, launch, position), (config_before, launch_before, position_before));

    // The token account holds more than the position has recorded.
    let beyond = SellParams { token_amount: held + 1, min_sol_out: 0 };
    assert_eq!(
        sell(
            &mut config,
            &mut launch,
            &mut position,
            key(LAUNCH),
            key(TRADER),
            key(CREATOR),
            held + 1,
            2_000_000_000,
            3_000,
            beyond,
        ),
        Err(LaunchrError::MathOverflow)
    );
    assert_eq!((config, launch, position), (config_before, launch_before, position_before));

    config.trading_paused = true;
    assert_eq!(
        sell(
            &mut config,
            &mut launch,
            &mut position,
            key(LAUNCH),
            key(TRADER),
            key(CREATOR),
            held,
            vault,
            3_000,
            params,
        ),
        Err(LaunchrError::TradingPaused)
    );
    config.trading_paused = false;
    assert!(sell(
        &mut config,
        &mut launch,
        &mut position,
        key(LAUNCH),
        key(TRADER),
        key(CREATOR),
        held,
        395_057_199 + CURVE_VAULT_RENT_MINIMUM,
        3_000,
        params,
    )
    .is_ok());
}

#[test]
fn balanced_distribution_splits_forty_forty_twenty() {
    assert_eq!(DEFAULT_BINS_PER_SIDE, 10);
    assert_eq!(BASE_ALLOCATION_PCT, 40);
    assert_eq!(QUOTE_ALLOCATION_PCT, 40);
    assert_eq!(ACTIVE_BIN_PCT, 20);
    let (bin_ids, distribution) = calculate_balanced_distribution(5, 2, 101, 7).unwrap();
    assert_eq!(bin_ids, vec![3, 4, 5, 6, 7]);
    assert_eq!(distribution, vec![20, 20, 10, 1, 1]);

    let total_base = 200_000_000_000_000_000u64;
    let total_quote = 80_000_000_000u64;
    let (bin_ids, distribution) =
        calculate_balanced_distribution(-6655, 10, total_base, total_quote).unwrap();
    assert_eq!(bin_ids.len(), 21);
    assert_eq!(distribution.len(), 21);
    assert_eq!(bin_ids, (-6665..=-6645).collect::<Vec<i32>>());
    let below: u64 = distribution[..10].iter().sum();
    let above: u64 = distribution[11..].iter().sum();
    assert_eq!(below, total_base / 100 * 40);
    assert_eq!(above, total_quote / 100 * 40);
    assert_eq!(distribution[10], total_base / 10 + total_quote / 10);
    assert_eq!(distribution[10], 20_000_008_000_000_000);
    assert!(distribution[..10].iter().all(|share| *share == 8_000_000_000_000_000));
    assert!(distribution[11..].iter().all(|share| *share == 3_200_000_000));
}

#[test]
fn balanced_distribution_rounds_each_side_down_by_less_than_its_bins() {
    let (_, distribution) = calculate_balanced_distribution(0, 7, 1_000_003, 999_999).unwrap();
    let below: u64 = distribution[..7].iter().sum();
    let above: u64 = distribution[8..].iter().sum();
    let base_budget = 1_000_003u64 * 40 / 100;
    let quote_budget = 999_999u64 * 40 / 100;
    assert!(below <= base_budget && base_budget - below < 7);
    assert!(above <= quote_budget && quote_budget - above < 7);
    assert_eq!(base_budget - below, base_budget % 7);
    assert_eq!(quote_budget - above, quote_budget % 7);
    assert_eq!(distribution[7], 1_000_003 / 10 + 999_999 / 10);
}

#[test]
fn balanced_distribution_at_the_ends() {
    assert_eq!(calculate_balanced_distribution(9, 0, 100, 50), Ok((vec![9], vec![15])));
    assert_eq!(
        calculate_balanced_distribution(0, 1, u64::MAX, u64::MAX),
        Ok((
            vec![-1, 0, 1],
            vec![7_378_697_629_483_820_646, 3_689_348_814_741_910_322, 7_378_697_629_483_820_646]
        ))
    );
    assert_eq!(calculate_balanced_distribution(i32::MIN, 1, 100, 50), Err(LaunchrError::MathOverflow));
    assert_eq!(calculate_balanced_distribution(i32::MAX, 1, 100, 50), Err(LaunchrError::MathOverflow));
    assert_eq!(calculate_balanced_distribution(i32::MIN + 255, 255, 0, 0).unwrap().0[0], i32::MIN);
    assert_eq!(calculate_balanced_distribution(i32::MAX - 255, 255, 0, 0).unwrap().0[510], i32::MAX);
    assert_eq!(calculate_balanced_distribution(i32::MIN, 0, 0, 0), Ok((vec![i32::MIN], vec![0])));
}

fn accounts() -> GraduateAccounts {
    GraduateAccounts {
        payer: key(20),
        launch: key(LAUNCH),
        launch_authority: key(21),
        creator: key(CREATOR),
        treasury: key(FEE_AUTHORITY),
        token_vault: key(22),
        curve_vault: key(23),
        orbit_program: key(ORBIT_PROGRAM),
        orbit_pool: key(24),
        orbit_registry: key(25),
        orbit_base_vault: key(26),
        orbit_quote_vault: key(27),
        orbit_creator_fee_vault: key(28),
        orbit_holders_fee_vault: key(29),
        orbit_nft_fee_vault: key(30),
        orbit_protocol_fee_vault: key(31),
        orbit_bin_array: key(32),
        orbit_position: key(33),
        token_program: key(34),
        system_program: key(35),
    }
}

fn ready_to_graduate() -> (Config, Launch) {
    let mut config = config();
    let mut launch = launch(&mut config);
    launch.status = LaunchStatus::PendingGraduation;
    launch.real_sol_reserve = 85_000_000_000;
    launch.virtual_sol_reserve = 115_000_000_000;
    launch.virtual_token_reserve = 209_000_000_000_000_000;
    launch.real_token_reserve = 209_000_000_000_000_000;
    launch.tokens_sold = 591_000_000_000_000_000;
    (config, launch)
}

fn writable(tag: u8, is_signer: bool) -> AccountMeta {
    AccountMeta { pubkey: key(tag), is_signer, is_writable: true }
}

fn readonly(tag: u8) -> AccountMeta {
    AccountMeta { pubkey: key(tag), is_signer: false, is_writable: false }
}

#[test]
fn graduate_plans_the_migration() {
    let (mut config, mut launch) = ready_to_graduate();
    let params = GraduateParams { bin_step_bps: None, num_liquidity_bins: None };
    let plan = graduate(
        &mut config,
        &mut launch,
        &accounts(),
        85_000_890_880,
        200_000_000_000_000_000,
        209_000_000_000_000_000,
        9_000,
        params,
    )
    .unwrap();
    assert_eq!(plan.current_price, 550);
    assert_eq!(plan.price_q64_64, 10_145_709_240_540);
    assert_eq!(plan.active_bin_index, -5546);
    assert_eq!(plan.bin_array_lower, -5568);
    assert_eq!(plan.base_mint, key(QUOTE_MINT));
    assert_eq!(plan.quote_mint, key(MINT));
    assert!(plan.is_inverted);
    assert_eq!(plan.creator_reward, 2_000_000_000);
    assert_eq!(plan.treasury_fee, 3_000_000_000);
    assert_eq!(plan.lp_sol_amount, 80_000_890_880);
    assert_eq!(plan.token_amount, 409_000_000_000_000_000);
    assert_eq!(plan.creator_reward + plan.treasury_fee + plan.lp_sol_amount, 85_000_890_880);
    assert_eq!(plan.bin_ids, (-5556..=-5536).collect::<Vec<i32>>());
    let mut distribution = vec![16_360_000_000_000_000u64; 10];
    distribution.push(40_900_008_000_089_088);
    distribution.extend(vec![3_200_035_635u64; 10]);
    assert_eq!(plan.distribution, distribution);
    assert_eq!(
        plan.event,
        LaunchGraduated {
            launch: key(LAUNCH),
            mint: key(MINT),
            orbit_pool: key(24),
            sol_liquidity: 80_000_890_880,
            token_liquidity: 409_000_000_000_000_000,
            final_price: 550,
            active_bin_index: -5546,
            creator_reward: 2_000_000_000,
            treasury_fee: 3_000_000_000,
            timestamp: 9_000,
        }
    );
    assert_eq!(launch.status, LaunchStatus::Graduated);
    assert_eq!(launch.orbit_pool, key(24));
    assert_eq!(launch.graduated_at, 9_000);
    assert_eq!(config.total_graduations, 1);

    assert_eq!(plan.init_pool.program_id, key(ORBIT_PROGRAM));
    assert_eq!(
        plan.init_pool.accounts,
        vec![writable(20, true), writable(24, false), writable(25, false), readonly(QUOTE_MINT), readonly(MINT), readonly(35)]
    );
    let mut data = vec![116u8, 233, 199, 204, 115, 159, 171, 36];
    data.extend_from_slice(&10_145_709_240_540u128.to_le_bytes());
    data.extend_from_slice(&25u16.to_le_bytes());
    data.extend_from_slice(&30u16.to_le_bytes());
    data.extend_from_slice(&20u16.to_le_bytes());
    data.push(1);
    assert_eq!(plan.init_pool.data, data);
    assert_eq!(plan.init_pool.data.len(), 31);

    assert_eq!(plan.init_vaults.program_id, key(ORBIT_PROGRAM));
    assert_eq!(
        plan.init_vaults.accounts,
        vec![
            writable(20, true),
            writable(24, false),
            writable(26, false),
            writable(27, false),
            writable(28, false),
            writable(29, false),
            writable(30, false),
            writable(31, false),
            readonly(QUOTE_MINT),
            readonly(MINT),
            readonly(34),
            readonly(35),
        ]
    );
    assert_eq!(plan.init_vaults.data, vec![209u8, 118, 61, 154, 158, 189, 162, 244]);

    assert_eq!(
        plan.create_bin_array.accounts,
        vec![writable(20, true), writable(24, false), writable(32, false), readonly(35)]
    );
    let mut data = vec![107u8, 26, 23, 62, 137, 213, 131, 235];
    data.extend_from_slice(&(-5568i32).to_le_bytes());
    assert_eq!(plan.create_bin_array.data, data);

    assert_eq!(
        plan.init_position.accounts,
        vec![writable(21, true), writable(24, false), writable(33, false), readonly(35)]
    );
    let mut data = vec![197u8, 20, 10, 1, 97, 160, 177, 91];
    data.extend_from_slice(&0u64.to_le_bytes());
    assert_eq!(plan.init_position.data, data);

    assert_eq!(
        plan.add_liquidity.accounts,
        vec![
            writable(24, false),
            writable(21, true),
            writable(22, false),
            writable(23, false),
            writable(26, false),
            writable(27, false),
            writable(33, false),
            readonly(34),
            writable(32, false),
        ]
    );
    let mut data = vec![126u8, 118, 210, 37, 80, 190, 19, 105];
    data.extend_from_slice(&21u32.to_le_bytes());
    for bin in -5556..=-5536i32 {
        data.extend_from_slice(&bin.to_le_bytes());
    }
    data.extend_from_slice(&21u32.to_le_bytes());
    for share in &distribution {
        data.extend_from_slice(&share.to_le_bytes());
    }
    assert_eq!(plan.add_liquidity.data, data);
    assert_eq!(plan.add_liquidity.data.len(), 8 + 4 + 21 * 4 + 4 + 21 * 8);
}

#[test]
fn graduate_takes_step_and_bins_from_its_parameters() {
    let (mut config, mut launch) = ready_to_graduate();
    launch.status = LaunchStatus::Active;
    launch.mint = key(2);
    let params = GraduateParams { bin_step_bps: Some(100), num_liquidity_bins: Some(0) };
    let plan =
        graduate(&mut config, &mut launch, &accounts(), 85_000_000_000, 0, u64::MAX, 9_000, params).unwrap();
    assert_eq!(plan.active_bin_index, -1387);
    assert_eq!(plan.bin_array_lower, -1408);
    assert_eq!(plan.base_mint, key(2));
    assert_eq!(plan.quote_mint, key(QUOTE_MINT));
    assert!(!plan.is_inverted);
    assert_eq!(plan.lp_sol_amount, 80_000_000_000);
    assert_eq!(plan.token_amount, u64::MAX);
    assert_eq!(plan.bin_ids, vec![-1387]);
    assert_eq!(plan.distribution, vec![u64::MAX / 10 + 8_000_000_000]);
    assert_eq!(&plan.init_pool.data[24..26], &100u16.to_le_bytes()[..]);
}

#[test]
fn graduate_rejections_change_nothing() {
    let params = GraduateParams { bin_step_bps: None, num_liquidity_bins: None };
    let (mut config, mut launch) = ready_to_graduate();
    let (config_before, launch_before) = (config, launch);

    assert_eq!(
        graduate(&mut config, &mut launch, &accounts(), 84_999_999_999, 1, 1, 9_000, params),
        Err(LaunchrError::InsufficientGraduationFunds)
    );
    assert_eq!((config, launch), (config_before, launch_before));

    let stranger = GraduateAccounts { creator: key(9), treasury: key(9), ..accounts() };
    assert_eq!(
        graduate(&mut config, &mut launch, &stranger, 85_000_000_000, 1, 1, 9_000, params),
        Err(LaunchrError::InvalidCreator)
    );
    let stranger = GraduateAccounts { treasury: key(9), ..accounts() };
    assert_eq!(
        graduate(&mut config, &mut launch, &stranger, 85_000_000_000, 1, 1, 9_000, params),
        Err(LaunchrError::InvalidTreasury)
    );
    assert_eq!((config, launch), (config_before, launch_before));

    launch.real_sol_reserve = 84_999_999_999;
    assert_eq!(
        graduate(&mut config, &mut launch, &stranger, 85_000_000_000, 1, 1, 9_000, params),
        Err(LaunchrError::ThresholdNotReached)
    );
    launch.real_sol_reserve = 85_000_000_000;

    launch.virtual_sol_reserve = 0;
    let empty = launch;
    assert_eq!(
        graduate(&mut config, &mut launch, &accounts(), 85_000_000_000, 1, 1, 9_000, params),
        Err(LaunchrError::MathOverflow)
    );
    assert_eq!(launch, empty);
    let one_bin = GraduateParams { bin_step_bps: None, num_liquidity_bins: Some(0) };
    let mut zero_price = launch;
    let plan =
        graduate(&mut config, &mut zero_price, &accounts(), 85_000_000_000, 1, 1, 9_000, one_bin).unwrap();
    assert_eq!(plan.active_bin_index, i32::MIN);
    assert_eq!(plan.bin_array_lower, i32::MIN);
    launch = launch_before;
    config = config_before;

    for status in [LaunchStatus::Graduated, LaunchStatus::Cancelled] {
        launch.status = status;
        launch.real_sol_reserve = 0;
        let before = launch;
        assert_eq!(
            graduate(&mut config, &mut launch, &accounts(), 0, 1, 1, 9_000, params),
            Err(LaunchrError::AlreadyGraduated)
        );
        assert_eq!(launch, before);
    }
    assert_eq!(config, config_before);
}

#[test]
fn graduating_twice_fails_the_second_time() {
    let (mut config, mut launch) = ready_to_graduate();
    let params = GraduateParams { bin_step_bps: None, num_liquidity_bins: None };
    assert!(graduate(&mut config, &mut launch, &accounts(), 85_000_000_000, 1, 1, 9_000, params).is_ok());
    let (config_before, launch_before) = (config, launch);
    assert_eq!(
        graduate(&mut config, &mut launch, &accounts(), 85_000_000_000, 1, 1, 9_001, params),
        Err(LaunchrError::AlreadyGraduated)
    );
    assert_eq!((config, launch), (config_before, launch_before));
}

#[test]
fn pool_calls_are_built_from_their_arguments() {
    let ix = build_init_pool_instruction(&key(1), &key(2), &key(3), &key(4), &key(5), &key(6), &key(7), u128::MAX, 1, 2, 3);
    assert_eq!(ix.program_id, key(1));
    assert_eq!(
        ix.accounts,
        vec![writable(2, true), writable(3, false), writable(4, false), readonly(5), readonly(6), readonly(7)]
    );
    assert_eq!(&ix.data[8..24], &[255u8; 16][..]);
    assert_eq!(&ix.data[24..], &[1, 0, 2, 0, 3, 0, 1][..]);

    let ix = build_init_vaults_instruction(
        &key(1), &key(2), &key(3), &key(4), &key(5), &key(6), &key(7), &key(8), &key(9), &key(10),
        &key(11), &key(12), &key(13),
    );
    assert_eq!(ix.accounts.len(), 12);
    assert_eq!(ix.accounts[2], writable(6, false));
    assert_eq!(ix.accounts[8], readonly(4));
    assert_eq!(ix.accounts[11], readonly(13));

    let ix = build_create_bin_array_instruction(&key(1), &key(2), &key(3), &key(4), &key(5), 64);
    assert_eq!(&ix.data[8..], &[64, 0, 0, 0][..]);

    let ix = build_init_position_instruction(&key(1), &key(2), &key(3), &key(4), &key(5), 0x0102);
    assert_eq!(&ix.data[8..], &[2, 1, 0, 0, 0, 0, 0, 0][..]);
    assert_eq!(ix.accounts[0], writable(2, true));

    let ix = build_add_liquidity_v2_instruction(
        &key(1), &key(2), &key(3), &key(4), &key(5), &key(6), &key(7), &key(8), &key(9),
        &[key(10), key(11)],
        &[-1, 2],
        &[7],
    );
    assert_eq!(ix.accounts.len(), 10);
    assert_eq!(ix.accounts[1], writable(3, true));
    assert_eq!(ix.accounts[7], readonly(9));
    assert_eq!(ix.accounts[8], writable(10, false));
    assert_eq!(ix.accounts[9], writable(11, false));
    assert_eq!(
        &ix.data[8..],
        &[2, 0, 0, 0, 255, 255, 255, 255, 2, 0, 0, 0, 1, 0, 0, 0, 7, 0, 0, 0, 0, 0, 0, 0][..]
    );
    assert_eq!(AccountMeta::new(key(1), true), writable(1, true));
    assert_eq!(AccountMeta::new_readonly(key(1), false), readonly(1));
}
