use anchor_lang::prelude::Pubkey;
use launchr::address::Address;
use launchr::error::LaunchrError;
use launchr::state::user_position::UserPosition;

fn unique() -> Address {
    Address::new_from_array(Pubkey::new_unique().to_bytes())
}

#[test]
fn test_buy_tracking() {
    let mut pos = UserPosition::default();
    pos.init(unique(), unique(), 255, 1000);

    pos.record_buy(100_000_000_000, 1_000_000_000, 1001);

    assert_eq!(pos.tokens_bought, 100_000_000_000);
    assert_eq!(pos.token_balance, 100_000_000_000);
    assert_eq!(pos.sol_spent, 1_000_000_000);
    assert_eq!(pos.buy_count, 1);
}

#[test]
fn test_pnl_calculation() {
    let mut pos = UserPosition::default();
    pos.init(unique(), unique(), 255, 1000);

    pos.record_buy(100_000_000_000, 1_000_000_000, 1001);

    let new_price = 20_000_000u64;

    let pnl = pos.unrealized_pnl(new_price);
    assert!(pnl > 0);
}

#[test]
fn new_position_is_empty() {
    let pos = UserPosition::default();
    assert!(pos.is_new());
    assert_eq!(pos.total_trades(), 0);
    assert_eq!(pos.launch, Address::default());
    assert_eq!(pos.user, Address::default());
    assert_eq!(pos.realized_pnl(), 0);
    assert_eq!(pos.unrealized_pnl(1_000_000_000), 0);
    assert_eq!(pos.total_pnl(1_000_000_000), 0);
    assert_eq!(pos.roi_percent(1_000_000_000), 0);
    assert_eq!(UserPosition::LEN, 185);
}

#[test]
fn init_binds_the_position_and_sets_both_times() {
    let launch = unique();
    let user = unique();
    let mut pos = UserPosition::default();
    pos.init(launch, user, 254, 1000);
    assert_eq!(pos.launch, launch);
    assert_eq!(pos.user, user);
    assert_eq!(pos.bump, 254);
    assert_eq!(pos.first_trade_at, 1000);
    assert_eq!(pos.last_trade_at, 1000);
    assert!(pos.is_new());
}

#[test]
fn buy_sets_cost_basis_and_average_price() {
    let mut pos = UserPosition::default();
    pos.record_buy(100_000_000_000, 1_000_000_000, 1001);
    assert_eq!(pos.cost_basis, 1_000_000_000);
    assert_eq!(pos.avg_buy_price, 10_000_000);
    assert_eq!(pos.last_trade_at, 1001);
    assert_eq!(pos.first_trade_at, 0);
    assert!(!pos.is_new());
    assert_eq!(pos.unrealized_pnl(20_000_000), 1_000_000_000);
    assert_eq!(pos.realized_pnl(), 0);
    assert_eq!(pos.total_pnl(20_000_000), 1_000_000_000);
    assert_eq!(pos.roi_percent(20_000_000), 10_000);
}

#[test]
fn buy_of_nothing_keeps_the_average_price() {
    let mut pos = UserPosition::default();
    pos.avg_buy_price = 77;
    pos.record_buy(0, 5, 3);
    assert_eq!(pos.avg_buy_price, 77);
    assert_eq!(pos.cost_basis, 5);
    assert_eq!(pos.buy_count, 1);
}

#[test]
fn sell_reduces_the_cost_basis_by_the_sold_share_of_all_bought() {
    let mut pos = UserPosition::default();
    pos.record_buy(100_000_000_000, 1_000_000_000, 1001);
    assert_eq!(pos.record_sell(30_000_000_000, 450_000_000, 1002), Ok(()));
    assert_eq!(pos.tokens_sold, 30_000_000_000);
    assert_eq!(pos.token_balance, 70_000_000_000);
    assert_eq!(pos.sol_received, 450_000_000);
    assert_eq!(pos.cost_basis, 700_000_000);
    assert_eq!(pos.avg_buy_price, 10_000_000);
    assert_eq!(pos.sell_count, 1);
    assert_eq!(pos.last_trade_at, 1002);
    assert_eq!(pos.total_trades(), 2);
    assert_eq!(pos.realized_pnl(), 150_000_000);
    assert_eq!(pos.unrealized_pnl(5_000_000), -350_000_000);
    assert_eq!(pos.total_pnl(5_000_000), -200_000_000);
    assert_eq!(pos.roi_percent(5_000_000), -2_000);

    pos.record_buy(7_000_000_001, 123_456_789, 1003);
    assert_eq!(pos.tokens_bought, 107_000_000_001);
    assert_eq!(pos.token_balance, 77_000_000_001);
    assert_eq!(pos.cost_basis, 823_456_789);
    assert_eq!(pos.avg_buy_price, 10_694_244);

    // The denominator is everything ever bought, not the balance: selling
    // the whole balance leaves part of the cost basis behind.
    assert_eq!(pos.record_sell(77_000_000_001, 10, 1004), Ok(()));
    assert_eq!(pos.token_balance, 0);
    assert_eq!(pos.tokens_sold, 107_000_000_001);
    assert_eq!(pos.cost_basis, 230_875_736);
    assert_eq!(pos.avg_buy_price, 0);
    assert_eq!(pos.realized_pnl(), -673_456_779);
    assert_eq!(pos.unrealized_pnl(1), 0);
    assert_eq!(pos.roi_percent(1), -5_994);
}

#[test]
fn sell_beyond_the_balance_is_rejected_and_changes_nothing() {
    let mut pos = UserPosition::default();
    pos.record_buy(100, 1_000, 1);
    let before = pos;
    assert_eq!(pos.record_sell(101, 5, 2), Err(LaunchrError::MathOverflow));
    assert_eq!(pos.tokens_sold, before.tokens_sold);
    assert_eq!(pos.token_balance, before.token_balance);
    assert_eq!(pos.sol_received, before.sol_received);
    assert_eq!(pos.cost_basis, before.cost_basis);
    assert_eq!(pos.sell_count, before.sell_count);
    assert_eq!(pos.last_trade_at, before.last_trade_at);
    assert_eq!(pos.record_sell(100, 5, 2), Ok(()));
    assert_eq!(pos.token_balance, 0);
}

#[test]
fn totals_saturate() {
    let mut pos = UserPosition::default();
    pos.record_buy(u64::MAX, u64::MAX, 1);
    pos.record_buy(5, 5, 2);
    assert_eq!(pos.tokens_bought, u64::MAX);
    assert_eq!(pos.token_balance, u64::MAX);
    assert_eq!(pos.sol_spent, u64::MAX);
    assert_eq!(pos.cost_basis, u64::MAX);
    assert_eq!(pos.avg_buy_price, 1_000_000_000);
    pos.buy_count = u32::MAX;
    pos.sell_count = 3;
    assert_eq!(pos.total_trades(), u32::MAX);
    pos.record_buy(0, 0, 3);
    assert_eq!(pos.buy_count, u32::MAX);
}

#[test]
fn average_price_is_capped() {
    let mut pos = UserPosition::default();
    pos.record_buy(1, u64::MAX, 1);
    assert_eq!(pos.avg_buy_price, u64::MAX);
}

#[test]
fn profit_and_loss_are_clamped_to_64_bits() {
    let mut pos = UserPosition::default();
    pos.tokens_bought = 1;
    pos.tokens_sold = u64::MAX;
    pos.sol_spent = u64::MAX;
    assert_eq!(pos.realized_pnl(), i64::MIN);
    pos.tokens_sold = 0;
    pos.sol_received = u64::MAX;
    assert_eq!(pos.realized_pnl(), i64::MAX);

    pos.token_balance = u64::MAX;
    pos.cost_basis = 0;
    assert_eq!(pos.unrealized_pnl(u64::MAX), i64::MAX);
    assert_eq!(pos.total_pnl(u64::MAX), i64::MAX);
    pos.token_balance = 1;
    pos.cost_basis = u64::MAX;
    assert_eq!(pos.unrealized_pnl(0), i64::MIN);
    pos.sol_received = 0;
    assert_eq!(pos.total_pnl(0), i64::MIN);
    pos.sol_spent = 1;
    assert_eq!(pos.roi_percent(0), i64::MIN);
    pos.sol_spent = u64::MAX;
    assert_eq!(pos.roi_percent(0), -5_000);
}

#[test]
fn return_is_rounded_toward_zero() {
    let mut pos = UserPosition::default();
    pos.record_buy(3, 3, 1);
    // Worth 2 at this price: a loss of 1 on 3 spent is -3333.33 basis points.
    assert_eq!(pos.unrealized_pnl(999_999_999), -1);
    assert_eq!(pos.roi_percent(999_999_999), -3_333);
    // Worth 4: a gain of 1 on 3 spent.
    assert_eq!(pos.roi_percent(1_400_000_000), 3_333);
}
