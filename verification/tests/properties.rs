//! Exact expected values for the fee, settlement and margin formulas, the
//! remaining error paths, and aggregate conservation across mixed
//! lifecycles.

use perp_ledger::errors::ContractError;
use perp_ledger::fee::fee;
use perp_ledger::ledger::PerpContract;

const TOKEN: u64 = 1;
const ORACLE: u64 = 2;
const TRADER: u64 = 7;
const TRADER_2: u64 = 8;
const LIQUIDATOR: u64 = 9;

fn setup() -> PerpContract {
    PerpContract::initialize("BTC".to_string(), 10, TOKEN, ORACLE)
}

#[test]
fn test_fee_exact_values() {
    // one percent, truncated, only on the side that widens the imbalance
    assert_eq!(fee(5000, 2000, 1000, true), 10);
    assert_eq!(fee(5000, 2000, 1050, true), 10);
    assert_eq!(fee(5000, 2000, 99, true), 0);
    assert_eq!(fee(2000, 5000, 1000, false), 10);
    // the reducing side, a balanced market and an empty market pay nothing
    assert_eq!(fee(5000, 2000, 1000, false), 0);
    assert_eq!(fee(2000, 5000, 1000, true), 0);
    assert_eq!(fee(5000, 5000, 1000, true), 0);
    assert_eq!(fee(5000, 5000, 1000, false), 0);
    assert_eq!(fee(0, 0, 1000, true), 0);
}

#[test]
fn test_fee_truncates_toward_zero() {
    assert_eq!(fee(5000, 2000, -250, true), -2);
}

#[test]
fn test_fee_charged_on_open() {
    let mut c = setup();
    c.place_trade(TRADER, 5000, true, 50000).unwrap();
    // the second long widens the imbalance: one percent stays with the system
    c.place_trade(TRADER_2, 1000, true, 50000).unwrap();
    let position = c.get_position(TRADER_2).unwrap();
    assert_eq!(position.value, 990);
    // the aggregate grows by the net value, not the requested size
    assert_eq!(c.total_long, 5990);
}

#[test]
fn test_place_trade_negative_value() {
    let mut c = setup();
    let r = c.place_trade(TRADER, -5, true, 50000);
    assert_eq!(r, Err(ContractError::ZeroValue));
    assert_eq!(c.total_long, 0);
    assert_eq!(c.total_short, 0);
}

#[test]
fn test_place_trade_duplicate() {
    let mut c = setup();
    c.place_trade(TRADER, 1000, true, 50000).unwrap();
    let r = c.place_trade(TRADER, 500, false, 51000);
    assert_eq!(r, Err(ContractError::PositionOpen));
    // the stored position and the aggregates are untouched
    let position = c.get_position(TRADER).unwrap();
    assert_eq!(position.value, 1000);
    assert!(position.long);
    assert_eq!(c.total_long, 1000);
    assert_eq!(c.total_short, 0);
}

#[test]
fn test_calculate_position_unchanged_price() {
    let mut c = setup();
    c.place_trade(TRADER, 1000, true, 50000).unwrap();
    assert_eq!(c.calculate_position(TRADER, 50000), 1000);
}

#[test]
fn test_calculate_position_short_loss() {
    let mut c = setup();
    c.place_trade(TRADER, 1000, false, 50000).unwrap();
    // price rises by 5000 against the short: the mirrored wipeout boundary
    assert_eq!(c.calculate_position(TRADER, 55000), 0);
}

#[test]
fn test_close_short_position() {
    let mut c = setup();
    c.place_trade(TRADER, 2000, false, 50000).unwrap();
    let settlement = c.close_trade(TRADER, 50000).unwrap();
    assert_eq!(settlement, 2000);
    assert_eq!(c.total_short, 0);
    assert_eq!(c.history.len(), 1);
    assert!(!c.history[0].long);
    assert_eq!(c.history[0].close_price, 50000);
}

#[test]
fn test_liquidate_above_margin() {
    let mut c = setup();
    c.place_trade(TRADER, 1000, true, 50000).unwrap();
    // at the entry price the margin ratio is 10000 basis points
    let r = c.liquidate_position(LIQUIDATOR, TRADER, 50000);
    assert_eq!(r, Err(ContractError::AboveMargin));
    assert!(c.get_position(TRADER).is_some());
    assert_eq!(c.total_long, 1000);
    assert!(c.history.is_empty());
}

#[test]
fn test_liquidate_margin_boundary() {
    let mut c = setup();
    // collateral 30000 at entry price 1000: each unit of price movement is
    // worth 300, so a fall to 903 leaves settlement 900 and margin exactly
    // 300 basis points — not yet liquidatable
    c.place_trade(TRADER, 30000, true, 1000).unwrap();
    let r = c.liquidate_position(LIQUIDATOR, TRADER, 903);
    assert_eq!(r, Err(ContractError::AboveMargin));

    // one step further: settlement 600, margin 200, reward a third of 600
    let reward = c.liquidate_position(LIQUIDATOR, TRADER, 902).unwrap();
    assert_eq!(reward, 200);
    assert_eq!(c.total_long, 0);
    assert_eq!(c.history.len(), 1);
    assert_eq!(c.history[0].close_price, 902);
}

#[test]
fn test_liquidate_nonexistent_position() {
    let mut c = setup();
    let r = c.liquidate_position(LIQUIDATOR, TRADER, 50000);
    assert_eq!(r, Err(ContractError::PositionNotOpen));
}

#[test]
fn test_aggregate_conservation() {
    let mut c = setup();
    c.place_trade(TRADER, 1000, true, 50000).unwrap();
    c.place_trade(TRADER_2, 2000, false, 50000).unwrap();
    assert_eq!(c.total_long + c.total_short, 3000);

    // closing subtracts the original collateral, whatever the settlement
    let settlement = c.close_trade(TRADER, 45000).unwrap();
    assert_eq!(settlement, 0); // wiped out, yet the aggregate drops by 1000
    assert_eq!(c.total_long + c.total_short, 2000);

    // liquidation subtracts the original collateral as well
    c.liquidate_position(LIQUIDATOR, TRADER_2, 50201).unwrap();
    assert_eq!(c.total_long + c.total_short, 0);
}

#[test]
fn test_history_keeps_call_order() {
    let mut c = setup();
    c.place_trade(TRADER, 1000, true, 50000).unwrap();
    c.place_trade(TRADER_2, 2000, false, 50000).unwrap();
    c.close_trade(TRADER_2, 51000).unwrap();
    c.close_trade(TRADER, 52000).unwrap();
    assert_eq!(c.history.len(), 2);
    assert!(!c.history[0].long);
    assert_eq!(c.history[0].close_price, 51000);
    assert!(c.history[1].long);
    assert_eq!(c.history[1].close_price, 52000);
}
