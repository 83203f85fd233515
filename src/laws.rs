use vstd::prelude::*;

use crate::engine::{issue_outcome, refinance_outcome, repay_outcome, withdraw_outcome};
use crate::position::{CollateralAccount, CollateralWithdrawn, InterestType, LoanError, LoanIssuance, LoanRepaid};
use crate::terms::{loan_active, max_loan_of, required_backing_of};

verus! {

/// With no loan active, a loan above `valuation × LTV / 100` is always
/// refused for insufficient collateral, and a loan of exactly that amount is
/// accepted whenever the amount and the term are positive and the grace
/// period is not negative.
pub proof fn lemma_issuance_bound(
    pre: CollateralAccount,
    now: i64,
    valuation: u64,
    loan_amount: u64,
    loan_duration: i64,
    interest_rate: u64,
    interest_type: InterestType,
    grace_period: i64,
)
    requires
        !loan_active(pre, now),
    ensures
        loan_amount > max_loan_of(valuation, pre.collateral_type) ==> issue_outcome(
            pre,
            now,
            valuation,
            loan_amount,
            loan_duration,
            interest_rate,
            interest_type,
            grace_period,
        ) == Err::<(CollateralAccount, LoanIssuance), LoanError>(
            LoanError::InsufficientCollateral,
        ),
        loan_amount == max_loan_of(valuation, pre.collateral_type) && loan_amount > 0
            && loan_duration > 0 && grace_period >= 0 ==> issue_outcome(
            pre,
            now,
            valuation,
            loan_amount,
            loan_duration,
            interest_rate,
            interest_type,
            grace_period,
        ) is Ok,
{
}

/// After a loan is issued at a nonzero time, a second issuance before its
/// term and grace period have elapsed is refused as a loan already issued;
/// from that instant on, a second issuance within the collateral limit, with
/// a positive amount and term and a grace period that is not negative, is
/// accepted.
pub proof fn lemma_no_double_issuance(
    pre: CollateralAccount,
    now: i64,
    valuation: u64,
    loan_amount: u64,
    loan_duration: i64,
    interest_rate: u64,
    interest_type: InterestType,
    grace_period: i64,
    later: i64,
    valuation2: u64,
    loan_amount2: u64,
    loan_duration2: i64,
    interest_rate2: u64,
    interest_type2: InterestType,
    grace_period2: i64,
)
    requires
        now != 0,
        issue_outcome(
            pre,
            now,
            valuation,
            loan_amount,
            loan_duration,
            interest_rate,
            interest_type,
            grace_period,
        ) is Ok,
    ensures
        ({
            let mid = issue_outcome(
                pre,
                now,
                valuation,
                loan_amount,
                loan_duration,
                interest_rate,
                interest_type,
                grace_period,
            )->Ok_0.0;
            let second = issue_outcome(
                mid,
                later,
                valuation2,
                loan_amount2,
                loan_duration2,
                interest_rate2,
                interest_type2,
                grace_period2,
            );
            &&& later < now + loan_duration + grace_period ==> second
                == Err::<(CollateralAccount, LoanIssuance), LoanError>(
                LoanError::LoanAlreadyIssued,
            )
            &&& later >= now + loan_duration + grace_period && 0 < loan_amount2 <= max_loan_of(
                valuation2,
                pre.collateral_type,
            ) && loan_duration2 > 0 && grace_period2 >= 0 ==> second is Ok
        }),
{
}

/// A successful repayment leaves no collateral, after which neither another
/// repayment nor a withdrawal succeeds until a new deposit.
pub proof fn lemma_repay_closes_position(
    pre: CollateralAccount,
    amount: u64,
    interest_due: u64,
    amount2: u64,
    interest_due2: u64,
    valuation: u64,
    withdrawn: u64,
)
    requires
        repay_outcome(pre, amount, interest_due) is Ok,
    ensures
        ({
            let post = repay_outcome(pre, amount, interest_due)->Ok_0.0;
            &&& post.amount == 0
            &&& repay_outcome(post, amount2, interest_due2) == Err::<
                (CollateralAccount, LoanRepaid),
                LoanError,
            >(LoanError::NoCollateralDeposited)
            &&& withdraw_outcome(post, valuation, withdrawn) == Err::<
                (CollateralAccount, CollateralWithdrawn),
                LoanError,
            >(LoanError::NoCollateralDeposited)
        }),
{
}

/// A withdrawal from a held position that leaves the valuation minus the
/// amount below the backing required by the recorded collateral is always
/// refused as insufficient remaining collateral.
pub proof fn lemma_withdrawal_bound(pre: CollateralAccount, valuation: u64, amount: u64)
    requires
        pre.amount > 0,
        amount <= pre.amount,
        valuation - amount < required_backing_of(pre.amount, pre.collateral_type),
    ensures
        withdraw_outcome(pre, valuation, amount) == Err::<
            (CollateralAccount, CollateralWithdrawn),
            LoanError,
        >(LoanError::InsufficientCollateralRemaining),
{
}

/// Refinancing with only one of the two terms leaves the other unchanged,
/// and the event reports the merged terms that are in force afterwards.
pub proof fn lemma_refinance_partial_update(
    pre: CollateralAccount,
    new_duration: Option<i64>,
    new_interest_rate: Option<u64>,
)
    ensures
        ({
            let (post, event) = refinance_outcome(pre, new_duration, new_interest_rate);
            &&& new_duration is None ==> post.loan_duration == pre.loan_duration
            &&& new_interest_rate is None ==> post.loan_interest_rate == pre.loan_interest_rate
            &&& new_duration matches Some(d) ==> post.loan_duration == d
            &&& new_interest_rate matches Some(r) ==> post.loan_interest_rate == r
            &&& post.loan_issued_at == pre.loan_issued_at
            &&& event.new_duration == post.loan_duration
            &&& event.new_interest_rate == post.loan_interest_rate
        }),
{
}

} // verus!
