use settlement_audit::{
    AnalysisError, BlockRange, OrderAge, OrderContribution, Receipt, RangeError, RunTotals, SettlementOutcome,
    SettlementRow, SkipReason, analyze_order, analyze_settlement, classify_order_age, has_incomplete_order,
    hex_text, order_age_seconds, order_overpayment, settlements_in_range,
};

const GWEI: u64 = 1_000_000_000;

fn order(gas_amount: u64, gas_price: u64) -> OrderContribution {
    OrderContribution {
        uid: vec![1, 2, 3],
        sell_token: Some(vec![0xaa; 20]),
        gas_amount: Some(gas_amount),
        gas_price: Some(gas_price),
        creation_timestamp: None,
    }
}

fn receipt(effective_gas_price: u64) -> Receipt {
    Receipt { block_number: 10, gas_used: 120_000, effective_gas_price }
}

fn ether(wei: u128) -> f64 {
    wei as f64 / 1e18
}

#[test]
fn range_needs_start_before_end() {
    assert_eq!(BlockRange::new(5, 5), Err(RangeError::StartNotBeforeEnd));
    assert_eq!(BlockRange::new(6, 5), Err(RangeError::StartNotBeforeEnd));
    assert_eq!(BlockRange::new(4, 5), Ok(BlockRange { from: 4, to: 5 }));
}

#[test]
fn range_defaults_to_lookback_from_current_block() {
    assert_eq!(BlockRange::resolve(None, None, 100, 1000), Ok(BlockRange { from: 900, to: 1000 }));
    assert_eq!(BlockRange::resolve(None, Some(500), 100, 1000), Ok(BlockRange { from: 400, to: 500 }));
    assert_eq!(BlockRange::resolve(Some(10), None, 100, 1000), Ok(BlockRange { from: 10, to: 1000 }));
    assert_eq!(BlockRange::resolve(None, None, 0, 1000), Err(RangeError::StartNotBeforeEnd));
    assert_eq!(BlockRange::resolve(Some(2000), None, 100, 1000), Err(RangeError::StartNotBeforeEnd));
    assert_eq!(BlockRange::resolve(None, Some(i64::MIN), 1, 0), Err(RangeError::StartOutOfBounds));
}

#[test]
fn range_contains_its_bounds() {
    let range = BlockRange::new(4, 8).unwrap();
    assert!(range.contains(4));
    assert!(range.contains(8));
    assert!(!range.contains(3));
    assert!(!range.contains(9));
}

#[test]
fn settlements_come_ordered_by_block_and_log_index() {
    let mut seed: u64 = 0x2545_f491_4f6c_dd1d;
    for round in 0..20 {
        let mut rows = Vec::new();
        let n = 5 + round * 3;
        for _ in 0..n {
            seed = seed.wrapping_mul(6364136223846793005).wrapping_add(1442695040888963407);
            let block = ((seed >> 33) % 12) as i64;
            let log = ((seed >> 17) % 5) as i64;
            rows.push(SettlementRow { tx_hash: vec![0; 32], block_number: block, log_index: log });
        }
        let range = BlockRange::new(2, 9).unwrap();
        let expected = rows.iter().filter(|r| r.block_number >= 2 && r.block_number <= 9).count();
        let out = settlements_in_range(&range, rows);
        assert_eq!(out.len(), expected);
        for pair in out.windows(2) {
            assert!((pair[0].block_number, pair[0].log_index) <= (pair[1].block_number, pair[1].log_index));
        }
        assert!(out.iter().all(|r| r.block_number >= 2 && r.block_number <= 9));
    }
}

#[test]
fn hash_length_is_validated() {
    assert!(SettlementRow { tx_hash: vec![7; 32], block_number: 1, log_index: 0 }.has_valid_hash());
    assert!(!SettlementRow { tx_hash: vec![7; 20], block_number: 1, log_index: 0 }.has_valid_hash());
}

#[test]
fn incomplete_settlement_is_skipped() {
    let mut totals = RunTotals::new();
    let mut staging = order(100_000, 50 * GWEI);
    staging.sell_token = None;
    let orders = vec![order(100_000, 50 * GWEI), staging];
    assert!(has_incomplete_order(&orders));
    let outcome = totals.add_settlement(&Some(receipt(150 * GWEI)), &orders);
    assert!(matches!(outcome, Ok(SettlementOutcome::Skipped(SkipReason::IncompleteOrders))));
    assert_eq!(totals, RunTotals::new());
}

#[test]
fn settlement_without_receipt_is_skipped() {
    let mut totals = RunTotals::new();
    let orders = vec![order(100_000, 50 * GWEI)];
    let outcome = totals.add_settlement(&None, &orders);
    assert!(matches!(outcome, Ok(SettlementOutcome::Skipped(SkipReason::MissingReceipt))));
    assert_eq!(totals, RunTotals::new());
}

#[test]
fn missing_gas_parameters_fail_the_settlement() {
    let mut totals = RunTotals::new();
    let mut partial = order(100_000, 50 * GWEI);
    partial.gas_price = None;
    let orders = vec![order(100_000, 50 * GWEI), partial];
    assert_eq!(analyze_settlement(&receipt(150 * GWEI), &orders).unwrap_err(), AnalysisError::MissingGasParameters);
    let outcome = totals.add_settlement(&Some(receipt(150 * GWEI)), &orders);
    assert_eq!(outcome.unwrap_err(), AnalysisError::MissingGasParameters);
    assert_eq!(totals, RunTotals::new());
}

#[test]
fn overpayment_needs_more_than_twice_the_gas_price() {
    let o = order_overpayment(150 * GWEI, 50 * GWEI, 100_000).unwrap();
    assert_eq!(o.excess, 5_000_000_000_000_000);
    assert_eq!(o.total, 10_000_000_000_000_000);
    assert!(o.excess < o.total);
    assert_eq!(order_overpayment(100 * GWEI, 50 * GWEI, 100_000), None);
    assert_eq!(order_overpayment(90 * GWEI, 50 * GWEI, 100_000), None);
    let o = order_overpayment(101, 50, 7).unwrap();
    assert_eq!((o.excess, o.total), (7, 357));
    let o = order_overpayment(u64::MAX, 0, u64::MAX).unwrap();
    assert_eq!(o.excess, u64::MAX as u128 * u64::MAX as u128);
}

#[test]
fn order_figures() {
    let a = analyze_order(150 * GWEI, 100_000, 50 * GWEI);
    assert_eq!(a.gas_cost, 5_000_000_000_000_000);
    assert_eq!(a.overpayment.unwrap().total, 10_000_000_000_000_000);
    assert_eq!(analyze_order(90 * GWEI, 100_000, 50 * GWEI).overpayment, None);
}

#[test]
fn one_overpaid_order_end_to_end() {
    let mut totals = RunTotals::new();
    let orders = vec![order(100_000, 50 * GWEI)];
    let outcome = totals.add_settlement(&Some(receipt(150 * GWEI)), &orders).unwrap();
    match outcome {
        SettlementOutcome::Analyzed(a) => {
            assert_eq!(a.orders.len(), 1);
            assert_eq!(a.total_gas, 100_000);
            assert_eq!(a.total_gas_cost, 5_000_000_000_000_000);
            assert_eq!(a.actual_gas_cost, 120_000 * 150 * GWEI as u128);
            assert_eq!(a.over_payed_excess, 5_000_000_000_000_000);
            assert_eq!(a.over_payed_total, 10_000_000_000_000_000);
        }
        SettlementOutcome::Skipped(_) => panic!("settlement was skipped"),
    }
    assert_eq!(ether(totals.over_payed_excess), 0.005);
    assert_eq!(ether(totals.over_payed_total), 0.01);
}

#[test]
fn order_below_twice_its_price_adds_nothing() {
    let mut totals = RunTotals::new();
    let orders = vec![order(100_000, 50 * GWEI)];
    let outcome = totals.add_settlement(&Some(receipt(90 * GWEI)), &orders).unwrap();
    assert!(matches!(outcome, SettlementOutcome::Analyzed(ref a) if a.over_payed_total == 0));
    assert_eq!(totals.over_payed_excess, 0);
    assert_eq!(totals.over_payed_total, 0);
}

#[test]
fn settlement_without_orders_gives_zero_report() {
    let mut totals = RunTotals::new();
    let orders: Vec<OrderContribution> = Vec::new();
    let outcome = totals.add_settlement(&Some(receipt(150 * GWEI)), &orders).unwrap();
    match outcome {
        SettlementOutcome::Analyzed(a) => {
            assert!(a.orders.is_empty());
            assert_eq!(a.total_gas, 0);
            assert_eq!(a.total_gas_cost, 0);
            assert_eq!(a.over_payed_excess, 0);
            assert_eq!(a.over_payed_total, 0);
        }
        SettlementOutcome::Skipped(_) => panic!("settlement was skipped"),
    }
    assert_eq!(totals, RunTotals::new());
}

fn run(settlements: &[(Option<Receipt>, Vec<OrderContribution>)]) -> RunTotals {
    let mut totals = RunTotals::new();
    for (receipt, orders) in settlements {
        totals.add_settlement(receipt, orders).unwrap();
    }
    totals
}

#[test]
fn repeated_runs_agree() {
    let mut staging = order(1, 1);
    staging.sell_token = None;
    let data = vec![
        (Some(receipt(150 * GWEI)), vec![order(100_000, 50 * GWEI), order(30_000, 20 * GWEI)]),
        (None, vec![order(100_000, 1)]),
        (Some(receipt(90 * GWEI)), vec![order(100_000, 50 * GWEI), order(50_000, 40 * GWEI)]),
        (Some(receipt(90 * GWEI)), vec![staging]),
    ];
    let first = run(&data);
    let second = run(&data);
    assert_eq!(first, second);
    assert_eq!(first.over_payed_excess, 5_000_000_000_000_000 + 3_300_000_000_000_000 + 500_000_000_000_000);
    assert_eq!(first.over_payed_total, 10_000_000_000_000_000 + 3_900_000_000_000_000 + 2_500_000_000_000_000);
}

#[test]
fn totals_stop_at_the_largest_value() {
    let mut totals = RunTotals::new();
    let orders = vec![order(u64::MAX, 0), order(u64::MAX, 0)];
    let r = Receipt { block_number: 1, gas_used: u64::MAX, effective_gas_price: u64::MAX };
    totals.add_settlement(&Some(r), &orders).unwrap();
    assert_eq!(totals.over_payed_excess, u128::MAX);
    assert_eq!(totals.over_payed_total, u128::MAX);
}

#[test]
fn order_age_classification() {
    assert_eq!(order_age_seconds(10_000, Some(8_000)), 2_000);
    assert_eq!(order_age_seconds(10_000, None), 0);
    assert_eq!(classify_order_age(10_000, Some(8_000)), OrderAge::Old);
    assert_eq!(classify_order_age(10_000, Some(8_800)), OrderAge::Recent);
    assert_eq!(classify_order_age(10_000, Some(8_799)), OrderAge::Old);
    assert_eq!(classify_order_age(10_000, None), OrderAge::Recent);
    assert_eq!(order_age_seconds(i64::MAX, Some(i64::MIN)), i64::MAX as i128 - i64::MIN as i128);
}

#[test]
fn hex_text_of_bytes() {
    assert_eq!(hex_text(&[0xab, 0x01, 0x90]), b"0xab0190".to_vec());
    assert_eq!(hex_text(&[]), b"0x".to_vec());
}
