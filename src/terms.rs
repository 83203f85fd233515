use vstd::prelude::*;

use crate::position::{get_ltv, ltv_of, CollateralAccount, CollateralType};

verus! {

/// Valuation that the fixed price source reports for every position.
pub const FIXED_VALUATION: u64 = 10000;

/// Seconds in a year of 365 days, the unit in which rates are quoted.
pub const SECONDS_PER_YEAR: u64 = 31536000;

/// Largest loan that a valuation admits under a category's limit:
/// `valuation × LTV / 100`, rounded down.
pub open spec fn max_loan_of(valuation: u64, t: CollateralType) -> int {
    valuation * ltv_of(t) / 100
}

/// Valuation that must stay behind `amount` of collateral of a category:
/// `amount × 100 / LTV`, rounded down.
pub open spec fn required_backing_of(amount: u64, t: CollateralType) -> int {
    amount * 100 / ltv_of(t)
}

/// Instant at which the term and the grace period of the position's loan
/// have both elapsed.
pub open spec fn maturity_of(a: CollateralAccount) -> int {
    a.loan_issued_at + a.loan_duration + a.grace_period
}

/// A loan is active at `now` when one was issued and its term and grace
/// period have not yet fully elapsed.
pub open spec fn loan_active(a: CollateralAccount, now: i64) -> bool {
    a.loan_issued_at != 0 && now < maturity_of(a)
}

/// Seconds since issuance at `now`, clamped at zero when the clock reads
/// earlier than the issuance.
pub open spec fn elapsed_of(a: CollateralAccount, now: i64) -> int {
    if now >= a.loan_issued_at {
        now - a.loan_issued_at
    } else {
        0
    }
}

/// Largest loan that `valuation` admits for collateral of the given category.
pub fn max_loan(valuation: u64, collateral_type: CollateralType) -> (r: u64)
    ensures
        r == max_loan_of(valuation, collateral_type),
        r <= valuation,
{
    let ltv = get_ltv(collateral_type);
    let v = valuation as u128;
    let l = ltv as u128;
    assert(v * l <= v * 100) by (nonlinear_arith)
        requires
            l <= 100,
    ;
    assert(v * 100 / 100 == v) by (nonlinear_arith);
    assert(v * l / 100 <= v) by (nonlinear_arith)
        requires
            v * l <= v * 100,
            v * 100 / 100 == v,
    ;
    (v * l / 100) as u64
}

/// Valuation that must remain behind `amount` of collateral of the given
/// category.
pub fn required_backing(amount: u64, collateral_type: CollateralType) -> (r: u128)
    ensures
        r == required_backing_of(amount, collateral_type),
{
    let ltv = get_ltv(collateral_type);
    (amount as u128) * 100 / (ltv as u128)
}

/// Instant at which the position's loan stops blocking a new issuance.
pub fn maturity(acct: &CollateralAccount) -> (r: i128)
    ensures
        r == maturity_of(*acct),
{
    (acct.loan_issued_at as i128) + (acct.loan_duration as i128) + (acct.grace_period as i128)
}

/// Seconds of interest accrual at `now`: the time since issuance, or zero
/// when the clock reads earlier than the issuance.
pub fn elapsed_since_issue(acct: &CollateralAccount, now: i64) -> (r: u64)
    ensures
        r == elapsed_of(*acct, now),
{
    if now >= acct.loan_issued_at {
        ((now as i128) - (acct.loan_issued_at as i128)) as u64
    } else {
        0
    }
}

} // verus!
