use vstd::prelude::*;

use crate::position::{
    CollateralAccount, CollateralDeposited, CollateralLiquidated, CollateralType,
    CollateralWithdrawn, Identity, InterestType, LoanError, LoanIssuance, LoanRefinanced,
    LoanRepaid, Liquidation,
};
use crate::terms::{
    loan_active, max_loan, max_loan_of, maturity, maturity_of, required_backing,
    required_backing_of,
};

verus! {

/// An operation's contract in one place: on `Ok((next, out))` the position
/// becomes `next` and the call returns `Ok(out)`; on `Err(e)` the position
/// stays as it was and the call returns `Err(e)`.
pub open spec fn applied<T>(
    outcome: Result<(CollateralAccount, T), LoanError>,
    before: CollateralAccount,
    after: CollateralAccount,
    r: Result<T, LoanError>,
) -> bool {
    match outcome {
        Ok((next, out)) => after == next && r == Ok::<T, LoanError>(out),
        Err(e) => after == before && r == Err::<T, LoanError>(e),
    }
}

/// Deposit: a zero amount is refused, then one whose sum with the held
/// collateral leaves `u64`; a deposit into an empty position records the
/// category, and a deposit into a held position keeps it. The owner, bound
/// when the position is created, never changes.
pub open spec fn deposit_outcome(
    pre: CollateralAccount,
    user: Identity,
    amount: u64,
    collateral_type: CollateralType,
) -> Result<(CollateralAccount, CollateralDeposited), LoanError> {
    if amount == 0 {
        Err(LoanError::InvalidInput)
    } else if pre.amount + amount > u64::MAX {
        Err(LoanError::ArithmeticOverflow)
    } else if pre.amount == 0 {
        Ok(
            (
                CollateralAccount { amount, collateral_type, ..pre },
                CollateralDeposited { user, amount },
            ),
        )
    } else {
        Ok(
            (
                CollateralAccount { amount: (pre.amount + amount) as u64, ..pre },
                CollateralDeposited { user, amount },
            ),
        )
    }
}

/// Issuance: a loan still active is refused, then a loan above the
/// valuation's limit, then terms outside their domain; an accepted loan records
/// its terms with `now` as issuance time, and asks for the loan to be minted
/// with a fee of 1% of it.
pub open spec fn issue_outcome(
    pre: CollateralAccount,
    now: i64,
    valuation: u64,
    loan_amount: u64,
    loan_duration: i64,
    interest_rate: u64,
    interest_type: InterestType,
    grace_period: i64,
) -> Result<(CollateralAccount, LoanIssuance), LoanError> {
    if loan_active(pre, now) {
        Err(LoanError::LoanAlreadyIssued)
    } else if loan_amount > max_loan_of(valuation, pre.collateral_type) {
        Err(LoanError::InsufficientCollateral)
    } else if loan_amount == 0 || loan_duration <= 0 || grace_period < 0 {
        Err(LoanError::InvalidInput)
    } else {
        Ok(
            (
                CollateralAccount {
                    loan_issued_at: now,
                    loan_duration,
                    loan_interest_rate: interest_rate,
                    interest_type,
                    grace_period,
                    ..pre
                },
                LoanIssuance { loan_amount, protocol_fee: loan_amount / 100 },
            ),
        )
    }
}

/// Repayment of `amount`, with `interest_due` accrued on the collateral over
/// the loan's elapsed time: an empty position is refused, then an amount
/// below collateral plus interest; an accepted repayment empties the position
/// and closes its loan.
pub open spec fn repay_outcome(
    pre: CollateralAccount,
    amount: u64,
    interest_due: u64,
) -> Result<(CollateralAccount, LoanRepaid), LoanError> {
    if pre.amount == 0 {
        Err(LoanError::NoCollateralDeposited)
    } else if amount < pre.amount + interest_due {
        Err(LoanError::InsufficientRepayment)
    } else {
        Ok(
            (
                CollateralAccount { amount: 0, loan_issued_at: 0, ..pre },
                LoanRepaid { user: pre.owner, amount },
            ),
        )
    }
}

/// The health of a position is breached when the collateral's valuation is
/// below 120% of the debt, the collateral plus its accrued interest.
pub open spec fn health_breached(pre: CollateralAccount, valuation: u64, interest_due: u64) -> bool {
    valuation * 100 < (pre.amount + interest_due) * 120
}

/// A loan is expired at `now` once its term and grace period have passed.
pub open spec fn expired(pre: CollateralAccount, now: i64) -> bool {
    now > maturity_of(pre)
}

/// Liquidation by a third party: a position without a loan, or whose loan
/// is neither expired nor under-collateralised, is refused, then an empty
/// one; an accepted liquidation empties the position, closes its loan, and pays
/// out the collateral as a 5% reward and the remainder.
pub open spec fn liquidate_outcome(
    pre: CollateralAccount,
    now: i64,
    liquidator: Identity,
    valuation: u64,
    interest_due: u64,
) -> Result<(CollateralAccount, Liquidation), LoanError> {
    if pre.loan_issued_at == 0 || !(health_breached(pre, valuation, interest_due) || expired(
        pre,
        now,
    )) {
        Err(LoanError::LoanNotExpiredOrCollateralUnderwater)
    } else if pre.amount == 0 {
        Err(LoanError::NoCollateralDeposited)
    } else {
        let reward = pre.amount * 5 / 100;
        let remainder = (pre.amount - reward) as u64;
        Ok(
            (
                CollateralAccount { amount: 0, loan_issued_at: 0, ..pre },
                Liquidation {
                    reward: reward as u64,
                    remainder,
                    event: CollateralLiquidated { user: pre.owner, liquidator, amount: remainder },
                },
            ),
        )
    }
}

/// Withdrawal of `amount`: an empty position is refused, then an amount
/// above the collateral, then one that leaves the valuation minus the amount
/// below the backing that the recorded collateral requires.
pub open spec fn withdraw_outcome(
    pre: CollateralAccount,
    valuation: u64,
    amount: u64,
) -> Result<(CollateralAccount, CollateralWithdrawn), LoanError> {
    if pre.amount == 0 {
        Err(LoanError::NoCollateralDeposited)
    } else if amount > pre.amount {
        Err(LoanError::InvalidInput)
    } else if valuation - amount < required_backing_of(pre.amount, pre.collateral_type) {
        Err(LoanError::InsufficientCollateralRemaining)
    } else {
        Ok(
            (
                CollateralAccount { amount: (pre.amount - amount) as u64, ..pre },
                CollateralWithdrawn { user: pre.owner, amount },
            ),
        )
    }
}

/// Refinancing overwrites the duration and the rate that are given, and
/// keeps every other field, the issuance time included; its event carries
/// the terms in force afterwards.
pub open spec fn refinance_outcome(
    pre: CollateralAccount,
    new_duration: Option<i64>,
    new_interest_rate: Option<u64>,
) -> (CollateralAccount, LoanRefinanced) {
    let duration = match new_duration {
        Some(d) => d,
        None => pre.loan_duration,
    };
    let rate = match new_interest_rate {
        Some(r) => r,
        None => pre.loan_interest_rate,
    };
    (
        CollateralAccount { loan_duration: duration, loan_interest_rate: rate, ..pre },
        LoanRefinanced { user: pre.owner, new_duration: duration, new_interest_rate: rate },
    )
}

/// Records a deposit of `amount` collateral by `user` into the position
/// that `CollateralAccount::empty` created for its owner. The caller moves
/// the amount into custody and publishes the returned event.
pub fn deposit_collateral(
    acct: &mut CollateralAccount,
    user: Identity,
    amount: u64,
    collateral_type: CollateralType,
) -> (r: Result<CollateralDeposited, LoanError>)
    ensures
        applied(deposit_outcome(*old(acct), user, amount, collateral_type), *old(acct), *final(acct), r),
{
    if amount == 0 {
        return Err(LoanError::InvalidInput);
    }
    if acct.amount > u64::MAX - amount {
        return Err(LoanError::ArithmeticOverflow);
    }
    if acct.amount == 0 {
        acct.collateral_type = collateral_type;
    }
    acct.amount = acct.amount + amount;
    Ok(CollateralDeposited { user, amount })
}

/// Issues a loan against the position at time `now`, given the collateral's
/// current valuation. The caller mints `loan_amount` to the borrower and
/// moves `protocol_fee` to the treasury.
pub fn issue_loan(
    acct: &mut CollateralAccount,
    now: i64,
    valuation: u64,
    loan_amount: u64,
    loan_duration: i64,
    interest_rate: u64,
    interest_type: InterestType,
    grace_period: i64,
) -> (r: Result<LoanIssuance, LoanError>)
    ensures
        applied(
            issue_outcome(
                *old(acct),
                now,
                valuation,
                loan_amount,
                loan_duration,
                interest_rate,
                interest_type,
                grace_period,
            ),
            *old(acct),
            *final(acct),
            r,
        ),
{
    if acct.loan_issued_at != 0 && (now as i128) < maturity(acct) {
        return Err(LoanError::LoanAlreadyIssued);
    }
    if loan_amount > max_loan(valuation, acct.collateral_type) {
        return Err(LoanError::InsufficientCollateral);
    }
    if loan_amount == 0 || loan_duration <= 0 || grace_period < 0 {
        return Err(LoanError::InvalidInput);
    }
    acct.loan_issued_at = now;
    acct.loan_duration = loan_duration;
    acct.loan_interest_rate = interest_rate;
    acct.interest_type = interest_type;
    acct.grace_period = grace_period;
    Ok(LoanIssuance { loan_amount, protocol_fee: loan_amount / 100 })
}

/// Repays the loan with `amount`, given the interest accrued on the
/// collateral since issuance. The caller moves `amount` into the loan pool
/// before it commits the new position.
pub fn repay_loan(acct: &mut CollateralAccount, amount: u64, interest_due: u64) -> (r: Result<
    LoanRepaid,
    LoanError,
>)
    ensures
        applied(repay_outcome(*old(acct), amount, interest_due), *old(acct), *final(acct), r),
{
    if acct.amount == 0 {
        return Err(LoanError::NoCollateralDeposited);
    }
    if (amount as u128) < (acct.amount as u128) + (interest_due as u128) {
        return Err(LoanError::InsufficientRepayment);
    }
    acct.amount = 0;
    acct.loan_issued_at = 0;
    Ok(LoanRepaid { user: acct.owner, amount })
}

/// Liquidates the position at `now` on behalf of `liquidator`, given the
/// collateral's valuation and the interest accrued since issuance. The
/// caller pays out `reward` and `remainder` before it commits the new
/// position.
pub fn liquidate_collateral(
    acct: &mut CollateralAccount,
    now: i64,
    liquidator: Identity,
    valuation: u64,
    interest_due: u64,
) -> (r: Result<Liquidation, LoanError>)
    ensures
        applied(
            liquidate_outcome(*old(acct), now, liquidator, valuation, interest_due),
            *old(acct),
            *final(acct),
            r,
        ),
{
    let debt = (acct.amount as u128) + (interest_due as u128);
    let breached = (valuation as u128) * 100 < debt * 120;
    let is_expired = (now as i128) > maturity(acct);
    if acct.loan_issued_at == 0 || !(breached || is_expired) {
        return Err(LoanError::LoanNotExpiredOrCollateralUnderwater);
    }
    if acct.amount == 0 {
        return Err(LoanError::NoCollateralDeposited);
    }
    let reward = acct.amount / 20;
    assert(reward == acct.amount * 5 / 100);
    let remainder = acct.amount - reward;
    let owner = acct.owner;
    acct.amount = 0;
    acct.loan_issued_at = 0;
    Ok(
        Liquidation {
            reward,
            remainder,
            event: CollateralLiquidated { user: owner, liquidator, amount: remainder },
        },
    )
}

/// Withdraws `amount` of collateral, given the collateral's valuation. The
/// caller moves `amount` back to the owner and publishes the event.
pub fn withdraw_collateral(acct: &mut CollateralAccount, valuation: u64, amount: u64) -> (r: Result<
    CollateralWithdrawn,
    LoanError,
>)
    ensures
        applied(withdraw_outcome(*old(acct), valuation, amount), *old(acct), *final(acct), r),
{
    if acct.amount == 0 {
        return Err(LoanError::NoCollateralDeposited);
    }
    if amount > acct.amount {
        return Err(LoanError::InvalidInput);
    }
    let required = required_backing(acct.amount, acct.collateral_type);
    if valuation < amount || ((valuation - amount) as u128) < required {
        return Err(LoanError::InsufficientCollateralRemaining);
    }
    acct.amount = acct.amount - amount;
    Ok(CollateralWithdrawn { user: acct.owner, amount })
}

/// Replaces the loan's duration and rate where new ones are given. The
/// event carries the terms in force afterwards.
pub fn refinance_loan(
    acct: &mut CollateralAccount,
    new_duration: Option<i64>,
    new_interest_rate: Option<u64>,
) -> (r: LoanRefinanced)
    ensures
        (*final(acct), r) == refinance_outcome(*old(acct), new_duration, new_interest_rate),
{
    if let Some(duration) = new_duration {
        acct.loan_duration = duration;
    }
    if let Some(rate) = new_interest_rate {
        acct.loan_interest_rate = rate;
    }
    LoanRefinanced {
        user: acct.owner,
        new_duration: acct.loan_duration,
        new_interest_rate: acct.loan_interest_rate,
    }
}

} // verus!
