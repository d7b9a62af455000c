use vstd::prelude::*;
use crate::overpayment::{Overpayment, excess_over_1x, excess_over_2x, is_overpaid, order_overpayment};

verus! {

/// The part of a transaction receipt that the audit reads.
#[derive(Clone, Copy, Debug, PartialEq, Eq, Structural)]
pub struct Receipt {
    /// Block the transaction was mined in.
    pub block_number: u64,
    /// Gas the transaction used.
    pub gas_used: u64,
    /// Price paid per unit of gas, in wei.
    pub effective_gas_price: u64,
}

/// One order's share of a settlement, as the order store records it. Fields
/// of records that the store did not hold are `None`.
#[derive(Debug)]
pub struct OrderContribution {
    /// Opaque order identifier.
    pub uid: Vec<u8>,
    /// The token sold; absent for orders whose data is incomplete.
    pub sell_token: Option<Vec<u8>>,
    /// Gas budgeted for the order.
    pub gas_amount: Option<u64>,
    /// Gas price budgeted for the order, in wei.
    pub gas_price: Option<u64>,
    /// When the order was created, in seconds since the Unix epoch.
    pub creation_timestamp: Option<i64>,
}

/// The figures computed for one order of an analysed settlement.
#[derive(Clone, Copy, Debug, PartialEq, Eq, Structural)]
pub struct OrderAnalysis {
    pub gas_amount: u64,
    pub gas_price: u64,
    /// Budgeted gas cost `gas_amount * gas_price`, in wei.
    pub gas_cost: u128,
    /// Present when the order was settled at more than twice its gas price.
    pub overpayment: Option<Overpayment>,
}

/// The figures computed for one settlement. Sums stop at `u128::MAX`.
#[derive(Debug)]
pub struct SettlementAnalysis {
    /// One entry per order, in the order given.
    pub orders: Vec<OrderAnalysis>,
    /// Gas budgeted over all orders.
    pub total_gas: u128,
    /// Budgeted gas cost over all orders, in wei.
    pub total_gas_cost: u128,
    /// What the transaction actually paid: `gas_used * effective_gas_price`.
    pub actual_gas_cost: u128,
    /// Cost beyond twice the budgeted gas price, over the overpaid orders.
    pub over_payed_excess: u128,
    /// Cost beyond the budgeted gas price, over the overpaid orders.
    pub over_payed_total: u128,
}

/// Why a settlement could not be analysed.
#[derive(Clone, Copy, Debug, PartialEq, Eq, Structural)]
pub enum AnalysisError {
    /// An order with a sell token lacks its gas amount or gas price.
    MissingGasParameters,
}

/// `x`, but no larger than `u128::MAX`.
pub open spec fn capped(x: int) -> int {
    if x > u128::MAX {
        u128::MAX as int
    } else {
        x
    }
}

pub open spec fn has_gas_parameters(o: OrderContribution) -> bool {
    o.gas_amount is Some && o.gas_price is Some
}

pub open spec fn all_have_gas_parameters(orders: Seq<OrderContribution>) -> bool {
    forall|i: int| 0 <= i < orders.len() ==> has_gas_parameters(#[trigger] orders[i])
}

/// A settlement some of whose orders lack a sell token: its order data is
/// incomplete, as for a settlement made in a staging environment.
pub open spec fn is_incomplete(orders: Seq<OrderContribution>) -> bool {
    exists|i: int| 0 <= i < orders.len() && (#[trigger] orders[i]).sell_token is None
}

pub open spec fn gas_of(o: OrderContribution) -> int {
    match o.gas_amount {
        Some(g) => g as int,
        None => 0,
    }
}

pub open spec fn gas_cost_of(o: OrderContribution) -> int {
    match (o.gas_amount, o.gas_price) {
        (Some(g), Some(p)) => g * p,
        _ => 0,
    }
}

/// What an order adds to a settlement's cost beyond twice its gas price.
pub open spec fn excess_of(e: u64, o: OrderContribution) -> int {
    match (o.gas_amount, o.gas_price) {
        (Some(g), Some(p)) => if is_overpaid(e as int, p as int) {
            excess_over_2x(e as int, p as int, g as int)
        } else {
            0
        },
        _ => 0,
    }
}

/// What an order adds to a settlement's cost beyond its gas price.
pub open spec fn total_of(e: u64, o: OrderContribution) -> int {
    match (o.gas_amount, o.gas_price) {
        (Some(g), Some(p)) => if is_overpaid(e as int, p as int) {
            excess_over_1x(e as int, p as int, g as int)
        } else {
            0
        },
        _ => 0,
    }
}

pub open spec fn gas_measure() -> spec_fn(OrderContribution) -> int {
    |o: OrderContribution| gas_of(o)
}

pub open spec fn gas_cost_measure() -> spec_fn(OrderContribution) -> int {
    |o: OrderContribution| gas_cost_of(o)
}

pub open spec fn excess_measure(e: u64) -> spec_fn(OrderContribution) -> int {
    |o: OrderContribution| excess_of(e, o)
}

pub open spec fn total_measure(e: u64) -> spec_fn(OrderContribution) -> int {
    |o: OrderContribution| total_of(e, o)
}

/// The sum of `f` over the orders.
pub open spec fn sum_by(orders: Seq<OrderContribution>, f: spec_fn(OrderContribution) -> int) -> int
    decreases orders.len(),
{
    if orders.len() == 0 {
        0
    } else {
        sum_by(orders.drop_last(), f) + f(orders.last())
    }
}

/// `a` holds the figures of the settlement with `receipt` and `orders`.
pub open spec fn is_analysis_of(receipt: Receipt, orders: Seq<OrderContribution>, a: SettlementAnalysis) -> bool {
    let e = receipt.effective_gas_price;
    &&& a.orders@.len() == orders.len()
    &&& forall|i: int| 0 <= i < orders.len() ==> {
        let o = #[trigger] a.orders@[i];
        &&& Some(o.gas_amount) == orders[i].gas_amount
        &&& Some(o.gas_price) == orders[i].gas_price
        &&& o.gas_cost == gas_cost_of(orders[i])
        &&& o.overpayment is Some <==> is_overpaid(e as int, o.gas_price as int)
        &&& o.overpayment matches Some(p) ==> p.excess == excess_of(e, orders[i])
            && p.total == total_of(e, orders[i])
    }
    &&& a.total_gas == capped(sum_by(orders, gas_measure()))
    &&& a.total_gas_cost == capped(sum_by(orders, gas_cost_measure()))
    &&& a.actual_gas_cost == receipt.gas_used * receipt.effective_gas_price
    &&& a.over_payed_excess == capped(sum_by(orders, excess_measure(e)))
    &&& a.over_payed_total == capped(sum_by(orders, total_measure(e)))
}

/// `acc + x`, stopping at `u128::MAX`.
fn add_capped(acc: u128, x: u128) -> (r: u128)
    ensures
        r == capped(acc + x),
{
    acc.saturating_add(x)
}

proof fn lemma_sum_by_step(orders: Seq<OrderContribution>, f: spec_fn(OrderContribution) -> int, i: int)
    requires
        0 <= i < orders.len(),
    ensures
        sum_by(orders.subrange(0, i + 1), f) == sum_by(orders.subrange(0, i), f) + f(orders[i]),
{
    assert(orders.subrange(0, i + 1).drop_last() =~= orders.subrange(0, i));
}

/// The figures of one order, budgeted at `gas_amount` and `gas_price`, in a
/// settlement paid at `effective` per unit of gas.
pub fn analyze_order(effective: u64, gas_amount: u64, gas_price: u64) -> (r: OrderAnalysis)
    ensures
        r.gas_amount == gas_amount,
        r.gas_price == gas_price,
        r.gas_cost == gas_amount * gas_price,
        r.overpayment is Some <==> is_overpaid(effective as int, gas_price as int),
        r.overpayment matches Some(o) ==> o.excess == excess_over_2x(effective as int, gas_price as int, gas_amount as int)
            && o.total == excess_over_1x(effective as int, gas_price as int, gas_amount as int),
{
    proof {
        assert(gas_amount * gas_price <= 0xffff_ffff_ffff_ffffu128 * 0xffff_ffff_ffff_ffffu128) by (nonlinear_arith)
            requires gas_amount <= 0xffff_ffff_ffff_ffffu128, gas_price <= 0xffff_ffff_ffff_ffffu128;
    }
    OrderAnalysis {
        gas_amount,
        gas_price,
        gas_cost: gas_amount as u128 * gas_price as u128,
        overpayment: order_overpayment(effective, gas_price, gas_amount),
    }
}

/// Analyses a settlement from its receipt and its orders: the figures of
/// each order and their sums. Fails when an order lacks its gas amount or gas
/// price.
pub fn analyze_settlement(receipt: &Receipt, orders: &Vec<OrderContribution>) -> (r: Result<SettlementAnalysis, AnalysisError>)
    ensures
        r is Ok <==> all_have_gas_parameters(orders@),
        r matches Err(e) ==> e == AnalysisError::MissingGasParameters,
        r matches Ok(a) ==> is_analysis_of(*receipt, orders@, a),
{
    let e = receipt.effective_gas_price;
    let mut analyses: Vec<OrderAnalysis> = Vec::new();
    let mut total_gas: u128 = 0;
    let mut total_gas_cost: u128 = 0;
    let mut over_payed_excess: u128 = 0;
    let mut over_payed_total: u128 = 0;
    let mut i: usize = 0;
    while i < orders.len()
        invariant
            i <= orders@.len(),
            analyses@.len() == i,
            all_have_gas_parameters(orders@.subrange(0, i as int)),
            forall|k: int| 0 <= k < i ==> {
                let o = #[trigger] analyses@[k];
                &&& Some(o.gas_amount) == orders@[k].gas_amount
                &&& Some(o.gas_price) == orders@[k].gas_price
                &&& o.gas_cost == gas_cost_of(orders@[k])
                &&& o.overpayment is Some <==> is_overpaid(e as int, o.gas_price as int)
                &&& o.overpayment matches Some(p) ==> p.excess == excess_of(e, orders@[k])
                    && p.total == total_of(e, orders@[k])
            },
            total_gas == capped(sum_by(orders@.subrange(0, i as int), gas_measure())),
            total_gas_cost == capped(sum_by(orders@.subrange(0, i as int), gas_cost_measure())),
            over_payed_excess == capped(sum_by(orders@.subrange(0, i as int), excess_measure(e))),
            over_payed_total == capped(sum_by(orders@.subrange(0, i as int), total_measure(e))),
        decreases orders@.len() - i,
    {
        let order = &orders[i];
        let (gas_amount, gas_price) = match (order.gas_amount, order.gas_price) {
            (Some(g), Some(p)) => (g, p),
            _ => {
                proof {
                    assert(!has_gas_parameters(orders@[i as int]));
                }
                return Err(AnalysisError::MissingGasParameters);
            },
        };
        let analysis = analyze_order(e, gas_amount, gas_price);
        proof {
            lemma_sum_by_step(orders@, gas_measure(), i as int);
            lemma_sum_by_step(orders@, gas_cost_measure(), i as int);
            lemma_sum_by_step(orders@, excess_measure(e), i as int);
            lemma_sum_by_step(orders@, total_measure(e), i as int);
        }
        total_gas = add_capped(total_gas, gas_amount as u128);
        total_gas_cost = add_capped(total_gas_cost, analysis.gas_cost);
        match analysis.overpayment {
            Some(o) => {
                over_payed_excess = add_capped(over_payed_excess, o.excess);
                over_payed_total = add_capped(over_payed_total, o.total);
            },
            None => {},
        }
        analyses.push(analysis);
        i = i + 1;
        proof {
            let s = orders@.subrange(0, i as int);
            assert forall|k: int| 0 <= k < s.len() implies has_gas_parameters(#[trigger] s[k]) by {
                if k < i - 1 {
                    assert(s[k] == orders@.subrange(0, i - 1)[k]);
                }
            }
        }
    }
    proof {
        assert(orders@.subrange(0, orders@.len() as int) =~= orders@);
        let (g, p) = (receipt.gas_used, receipt.effective_gas_price);
        assert(g * p <= 0xffff_ffff_ffff_ffffu128 * 0xffff_ffff_ffff_ffffu128) by (nonlinear_arith)
            requires g <= 0xffff_ffff_ffff_ffffu128, p <= 0xffff_ffff_ffff_ffffu128;
    }
    Ok(SettlementAnalysis {
        orders: analyses,
        total_gas,
        total_gas_cost,
        actual_gas_cost: receipt.gas_used as u128 * receipt.effective_gas_price as u128,
        over_payed_excess,
        over_payed_total,
    })
}

/// Orders older than this many seconds at settlement are old.
pub const OLD_ORDER_AGE_SECONDS: i128 = 1200;

/// How long an order waited before it was settled.
#[derive(Clone, Copy, Debug, PartialEq, Eq, Structural)]
pub enum OrderAge {
    Recent,
    Old,
}

/// Seconds from an order's creation to its settlement; 0 when the creation
/// time is unknown.
pub open spec fn age_seconds(settlement_timestamp: i64, creation_timestamp: Option<i64>) -> int {
    match creation_timestamp {
        Some(c) => settlement_timestamp - c,
        None => 0,
    }
}

pub open spec fn age_class(age: int) -> OrderAge {
    if age > OLD_ORDER_AGE_SECONDS {
        OrderAge::Old
    } else {
        OrderAge::Recent
    }
}

/// Seconds from an order's creation to its settlement; 0 when the creation
/// time is unknown.
pub fn order_age_seconds(settlement_timestamp: i64, creation_timestamp: Option<i64>) -> (r: i128)
    ensures
        r == age_seconds(settlement_timestamp, creation_timestamp),
{
    match creation_timestamp {
        Some(c) => settlement_timestamp as i128 - c as i128,
        None => 0,
    }
}

/// Whether an order was old or recent when it was settled.
pub fn classify_order_age(settlement_timestamp: i64, creation_timestamp: Option<i64>) -> (r: OrderAge)
    ensures
        r == age_class(age_seconds(settlement_timestamp, creation_timestamp)),
{
    if order_age_seconds(settlement_timestamp, creation_timestamp) > OLD_ORDER_AGE_SECONDS {
        OrderAge::Old
    } else {
        OrderAge::Recent
    }
}

} // verus!
