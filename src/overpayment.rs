use vstd::prelude::*;

verus! {

/// How far one order's execution went over its gas budget, in wei.
#[derive(Clone, Copy, Debug, PartialEq, Eq, Structural)]
pub struct Overpayment {
    /// Cost beyond twice the order's gas price: `(E - 2P) * G`.
    pub excess: u128,
    /// Cost beyond the order's gas price: `(E - P) * G`.
    pub total: u128,
}

/// An order is overpaid when the effective gas price `e` exceeds twice the
/// order's gas price `p`.
pub open spec fn is_overpaid(e: int, p: int) -> bool {
    e - 2 * p > 0
}

/// The cost beyond twice the budgeted gas price.
pub open spec fn excess_over_2x(e: int, p: int, g: int) -> int {
    (e - 2 * p) * g
}

/// The cost beyond the budgeted gas price.
pub open spec fn excess_over_1x(e: int, p: int, g: int) -> int {
    (e - p) * g
}

/// The overpayment of one order settled at effective gas price `effective`,
/// given its budgeted `gas_price` and `gas_amount`: `None` unless the
/// effective price exceeds twice the budgeted one.
pub fn order_overpayment(effective: u64, gas_price: u64, gas_amount: u64) -> (r: Option<Overpayment>)
    ensures
        r is Some <==> is_overpaid(effective as int, gas_price as int),
        r matches Some(o) ==> o.excess == excess_over_2x(effective as int, gas_price as int, gas_amount as int)
            && o.total == excess_over_1x(effective as int, gas_price as int, gas_amount as int),
{
    let e = effective as u128;
    let p = gas_price as u128;
    let g = gas_amount as u128;
    if e > 2 * p {
        let d2 = e - 2 * p;
        let d1 = e - p;
        proof {
            assert(d2 * g <= d1 * g) by (nonlinear_arith)
                requires d2 <= d1, 0 <= g;
            assert(d1 * g <= 0xffff_ffff_ffff_ffffu128 * 0xffff_ffff_ffff_ffffu128) by (nonlinear_arith)
                requires d1 <= 0xffff_ffff_ffff_ffffu128, g <= 0xffff_ffff_ffff_ffffu128, 0 <= d1, 0 <= g;
        }
        Some(Overpayment { excess: d2 * g, total: d1 * g })
    } else {
        None
    }
}

/// Once an order is overpaid with a positive gas price and a positive gas
/// amount, the cost beyond twice its gas price stays strictly below the cost
/// beyond its gas price.
pub proof fn lemma_excess_below_total(e: int, p: int, g: int)
    requires
        is_overpaid(e, p),
        p > 0,
        g > 0,
    ensures
        0 < excess_over_2x(e, p, g) < excess_over_1x(e, p, g),
{
    assert(0 < (e - 2 * p) * g < (e - p) * g) by (nonlinear_arith)
        requires e - 2 * p > 0, p > 0, g > 0;
}

} // verus!
