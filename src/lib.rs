//! Audit of settlement transactions against the gas budgets of the orders
//! they executed: which orders were settled at more than twice their gas
//! price, and by how much, summed over a range of blocks.
//!
//! All amounts are whole numbers: gas prices and costs in wei, gas in units
//! of gas, timestamps in seconds since the Unix epoch.

mod analysis;
mod hex;
mod overpayment;
mod range;
mod run;
mod settlements;

pub use analysis::{
    AnalysisError, OLD_ORDER_AGE_SECONDS, OrderAge, OrderAnalysis, OrderContribution, Receipt,
    SettlementAnalysis, age_class, age_seconds, all_have_gas_parameters, analyze_order, analyze_settlement,
    capped, classify_order_age, excess_measure, excess_of, gas_cost_measure, gas_cost_of, gas_measure, gas_of,
    has_gas_parameters, is_analysis_of, is_incomplete, order_age_seconds, sum_by, total_measure, total_of,
};
pub use hex::{hex_digit, hex_text, is_hex_of};
pub use overpayment::{
    Overpayment, excess_over_1x, excess_over_2x, is_overpaid, lemma_excess_below_total, order_overpayment,
};
pub use range::{BlockRange, RangeError, resolved_end, resolved_start};
pub use run::{
    RunTotals, SettlementData, SettlementOutcome, SkipReason, has_incomplete_order,
    lemma_incomplete_settlement_adds_nothing, lemma_missing_receipt_adds_nothing, lemma_run_repeatable,
    lemma_run_step, run_excess, run_total, settlement_excess, settlement_total,
};
pub use settlements::{SettlementRow, TX_HASH_LEN, in_range, is_ordered, row_le, settlements_in_range};
