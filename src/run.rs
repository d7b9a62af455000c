use vstd::prelude::*;
use crate::analysis::{
    AnalysisError, OrderContribution, Receipt, SettlementAnalysis, all_have_gas_parameters, analyze_settlement,
    capped, excess_measure, is_analysis_of, is_incomplete, sum_by, total_measure,
};

verus! {

/// Why a settlement was left out of the totals.
#[derive(Clone, Copy, Debug, PartialEq, Eq, Structural)]
pub enum SkipReason {
    /// The node has no receipt for the settlement's transaction.
    MissingReceipt,
    /// Some order of the settlement lacks its sell token.
    IncompleteOrders,
}

/// What became of one settlement of a run.
#[derive(Debug)]
pub enum SettlementOutcome {
    Skipped(SkipReason),
    Analyzed(SettlementAnalysis),
}

/// The running totals of an analysis run, in wei. They stop at `u128::MAX`.
#[derive(Clone, Copy, Debug, PartialEq, Eq, Structural)]
pub struct RunTotals {
    /// Cost beyond twice the budgeted gas prices.
    pub over_payed_excess: u128,
    /// Cost beyond the budgeted gas prices.
    pub over_payed_total: u128,
}

/// A settlement as a run sees it: its receipt, if the node has one, and its
/// orders.
pub type SettlementData = (Option<Receipt>, Seq<OrderContribution>);

/// What a settlement adds to the excess total: nothing when it is skipped.
pub open spec fn settlement_excess(receipt: Option<Receipt>, orders: Seq<OrderContribution>) -> int {
    match receipt {
        None => 0,
        Some(r) => if is_incomplete(orders) {
            0
        } else {
            capped(sum_by(orders, excess_measure(r.effective_gas_price)))
        },
    }
}

/// What a settlement adds to the overall total: nothing when it is skipped.
pub open spec fn settlement_total(receipt: Option<Receipt>, orders: Seq<OrderContribution>) -> int {
    match receipt {
        None => 0,
        Some(r) => if is_incomplete(orders) {
            0
        } else {
            capped(sum_by(orders, total_measure(r.effective_gas_price)))
        },
    }
}

/// The excess total after a run over `settlements`, in order, from zero.
pub open spec fn run_excess(settlements: Seq<SettlementData>) -> int
    decreases settlements.len(),
{
    if settlements.len() == 0 {
        0
    } else {
        let (receipt, orders) = settlements.last();
        capped(run_excess(settlements.drop_last()) + settlement_excess(receipt, orders))
    }
}

/// The overall total after a run over `settlements`, in order, from zero.
pub open spec fn run_total(settlements: Seq<SettlementData>) -> int
    decreases settlements.len(),
{
    if settlements.len() == 0 {
        0
    } else {
        let (receipt, orders) = settlements.last();
        capped(run_total(settlements.drop_last()) + settlement_total(receipt, orders))
    }
}

/// Whether some order lacks its sell token.
pub fn has_incomplete_order(orders: &Vec<OrderContribution>) -> (r: bool)
    ensures
        r == is_incomplete(orders@),
{
    let mut i: usize = 0;
    while i < orders.len()
        invariant
            i <= orders@.len(),
            forall|k: int| 0 <= k < i ==> (#[trigger] orders@[k]).sell_token is Some,
        decreases orders@.len() - i,
    {
        if orders[i].sell_token.is_none() {
            return true;
        }
        i = i + 1;
    }
    false
}

impl RunTotals {
    /// Totals at the start of a run: zero.
    pub fn new() -> (r: RunTotals)
        ensures
            r.over_payed_excess == 0,
            r.over_payed_total == 0,
    {
        RunTotals { over_payed_excess: 0, over_payed_total: 0 }
    }

    /// Takes one settlement into the run: skips it when its receipt is
    /// missing or an order lacks its sell token, else analyses it and adds
    /// its overpayment to the totals. Fails, leaving the totals as they were,
    /// when an order of an analysable settlement lacks its gas parameters.
    pub fn add_settlement(&mut self, receipt: &Option<Receipt>, orders: &Vec<OrderContribution>) -> (r: Result<SettlementOutcome, AnalysisError>)
        ensures
            receipt is None <==> r matches Ok(SettlementOutcome::Skipped(SkipReason::MissingReceipt)),
            receipt is Some && is_incomplete(orders@)
                <==> r matches Ok(SettlementOutcome::Skipped(SkipReason::IncompleteOrders)),
            r is Err <==> receipt is Some && !is_incomplete(orders@) && !all_have_gas_parameters(orders@),
            r matches Err(e) ==> e == AnalysisError::MissingGasParameters && *final(self) == *old(self),
            r matches Ok(SettlementOutcome::Analyzed(a)) ==> (*receipt) matches Some(rc) && is_analysis_of(rc, orders@, a),
            r is Ok ==> final(self).over_payed_excess == capped(old(self).over_payed_excess + settlement_excess(*receipt, orders@)),
            r is Ok ==> final(self).over_payed_total == capped(old(self).over_payed_total + settlement_total(*receipt, orders@)),
    {
        let rc = match receipt {
            None => return Ok(SettlementOutcome::Skipped(SkipReason::MissingReceipt)),
            Some(rc) => rc,
        };
        if has_incomplete_order(orders) {
            return Ok(SettlementOutcome::Skipped(SkipReason::IncompleteOrders));
        }
        match analyze_settlement(rc, orders) {
            Err(e) => Err(e),
            Ok(a) => {
                self.over_payed_excess = self.over_payed_excess.saturating_add(a.over_payed_excess);
                self.over_payed_total = self.over_payed_total.saturating_add(a.over_payed_total);
                Ok(SettlementOutcome::Analyzed(a))
            },
        }
    }
}

proof fn lemma_run_bounded(settlements: Seq<SettlementData>)
    ensures
        run_excess(settlements) <= u128::MAX,
        run_total(settlements) <= u128::MAX,
    decreases settlements.len(),
{
    if settlements.len() > 0 {
        lemma_run_bounded(settlements.drop_last());
    }
}

/// A settlement without a receipt adds nothing to either total of a run.
pub proof fn lemma_missing_receipt_adds_nothing(settlements: Seq<SettlementData>, orders: Seq<OrderContribution>)
    ensures
        settlement_excess(None, orders) == 0,
        settlement_total(None, orders) == 0,
        run_excess(settlements.push((None, orders))) == run_excess(settlements),
        run_total(settlements.push((None, orders))) == run_total(settlements),
{
    lemma_run_bounded(settlements);
    assert(settlements.push((None, orders)).drop_last() =~= settlements);
}

/// A settlement with an order that lacks its sell token adds nothing to
/// either total of a run.
pub proof fn lemma_incomplete_settlement_adds_nothing(
    settlements: Seq<SettlementData>,
    receipt: Option<Receipt>,
    orders: Seq<OrderContribution>,
)
    requires
        is_incomplete(orders),
    ensures
        settlement_excess(receipt, orders) == 0,
        settlement_total(receipt, orders) == 0,
        run_excess(settlements.push((receipt, orders))) == run_excess(settlements),
        run_total(settlements.push((receipt, orders))) == run_total(settlements),
{
    lemma_run_bounded(settlements);
    assert(settlements.push((receipt, orders)).drop_last() =~= settlements);
}

/// Taking one more settlement into totals that stand at a run's totals
/// gives the totals of the longer run: calls of `RunTotals::add_settlement`
/// from `RunTotals::new()` over settlements, in order, end at `run_excess`
/// and `run_total` of them.
pub proof fn lemma_run_step(settlements: Seq<SettlementData>, before: RunTotals, receipt: Option<Receipt>, orders: Seq<OrderContribution>)
    requires
        before.over_payed_excess == run_excess(settlements),
        before.over_payed_total == run_total(settlements),
    ensures
        capped(before.over_payed_excess + settlement_excess(receipt, orders)) == run_excess(settlements.push((receipt, orders))),
        capped(before.over_payed_total + settlement_total(receipt, orders)) == run_total(settlements.push((receipt, orders))),
{
    assert(settlements.push((receipt, orders)).drop_last() =~= settlements);
}

/// Two runs over the same settlements end with the same totals.
pub proof fn lemma_run_repeatable(first: Seq<SettlementData>, second: Seq<SettlementData>)
    requires
        first =~= second,
    ensures
        run_excess(first) == run_excess(second),
        run_total(first) == run_total(second),
{
}

} // verus!
