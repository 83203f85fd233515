use vstd::prelude::*;

verus! {

/// Identity of an account holder: the 32 bytes of its public key.
pub type Identity = [u8; 32];

/// Category of the locked asset; it selects the loan-to-value entry.
#[derive(Clone, Copy, Debug, PartialEq, Eq, Structural)]
pub enum CollateralType {
    Gold,
    Crypto,
    /// Any category without an entry of its own in the table.
    Unlisted(u8),
}

/// How the rate of a loan is meant to evolve. Both kinds accrue by the same formula.
#[derive(Clone, Copy, Debug, PartialEq, Eq, Structural)]
pub enum InterestType {
    Fixed,
    Variable,
}

impl CollateralType {
    /// The category stored under a one-byte code: 0 is Gold, 1 is Crypto.
    pub fn from_code(code: u8) -> (r: CollateralType)
        ensures
            code == 0 ==> r == CollateralType::Gold,
            code == 1 ==> r == CollateralType::Crypto,
            code > 1 ==> r == CollateralType::Unlisted(code),
    {
        match code {
            0 => CollateralType::Gold,
            1 => CollateralType::Crypto,
            _ => CollateralType::Unlisted(code),
        }
    }

    /// The one-byte code of the category; `from_code` inverts it.
    pub fn code(&self) -> (r: u8)
        ensures
            *self == CollateralType::Gold ==> r == 0,
            *self == CollateralType::Crypto ==> r == 1,
            self matches CollateralType::Unlisted(c) ==> r == c,
    {
        match self {
            CollateralType::Gold => 0,
            CollateralType::Crypto => 1,
            CollateralType::Unlisted(c) => *c,
        }
    }
}

impl InterestType {
    /// The kind stored under a one-byte code: 0 is Fixed, 1 is Variable,
    /// any other code names none.
    pub fn from_code(code: u8) -> (r: Option<InterestType>)
        ensures
            code == 0 ==> r == Some(InterestType::Fixed),
            code == 1 ==> r == Some(InterestType::Variable),
            code > 1 ==> r is None,
    {
        match code {
            0 => Some(InterestType::Fixed),
            1 => Some(InterestType::Variable),
            _ => None,
        }
    }

    /// The one-byte code of the kind; `from_code` inverts it.
    pub fn code(&self) -> (r: u8)
        ensures
            *self == InterestType::Fixed ==> r == 0,
            *self == InterestType::Variable ==> r == 1,
    {
        match self {
            InterestType::Fixed => 0,
            InterestType::Variable => 1,
        }
    }
}

/// Loan-to-value limit of a category, in percent.
pub open spec fn ltv_of(t: CollateralType) -> int {
    match t {
        CollateralType::Gold => 70,
        CollateralType::Crypto => 50,
        CollateralType::Unlisted(_) => 50,
    }
}

/// The loan-to-value table: Gold 70%, Crypto 50%, every other category 50%.
pub fn get_ltv(collateral_type: CollateralType) -> (r: u64)
    ensures
        r == ltv_of(collateral_type),
        0 < r <= 100,
{
    match collateral_type {
        CollateralType::Gold => 70,
        CollateralType::Crypto => 50,
        CollateralType::Unlisted(_) => 50,
    }
}

/// One borrower's position: the collateral held in custody and the terms of
/// the loan drawn against it. A `loan_issued_at` of 0 means that no loan is
/// active.
#[derive(Clone, Copy, Debug)]
pub struct CollateralAccount {
    pub owner: Identity,
    /// Quantity of collateral held in custody.
    pub amount: u64,
    /// Issuance time of the active loan, or 0 when there is none.
    pub loan_issued_at: i64,
    /// Term of the loan, in seconds.
    pub loan_duration: i64,
    /// Yearly rate, in whole percent.
    pub loan_interest_rate: u64,
    pub interest_type: InterestType,
    /// Seconds after the term before the loan can be liquidated for expiry.
    pub grace_period: i64,
    pub collateral_type: CollateralType,
}

impl CollateralAccount {
    /// A position of `owner` that holds nothing and has no loan.
    pub fn empty(owner: Identity) -> (r: CollateralAccount)
        ensures
            r.owner == owner,
            r.amount == 0,
            r.loan_issued_at == 0,
            r.loan_duration == 0,
            r.loan_interest_rate == 0,
            r.interest_type == InterestType::Fixed,
            r.grace_period == 0,
            r.collateral_type == CollateralType::Gold,
    {
        CollateralAccount {
            owner,
            amount: 0,
            loan_issued_at: 0,
            loan_duration: 0,
            loan_interest_rate: 0,
            interest_type: InterestType::Fixed,
            grace_period: 0,
            collateral_type: CollateralType::Gold,
        }
    }
}

/// Why an operation on a position was refused. A refused operation leaves
/// the position as it was.
#[derive(Clone, Copy, Debug, PartialEq, Eq, Structural)]
pub enum LoanError {
    InsufficientCollateral,
    NoCollateralDeposited,
    LoanNotExpiredOrCollateralUnderwater,
    InsufficientRepayment,
    InsufficientCollateralRemaining,
    LoanAlreadyIssued,
    OverpaymentNotAllowed,
    OraclePriceUnavailable,
    /// An amount, term or grace period outside the accepted domain.
    InvalidInput,
    /// A balance would leave the range of its integer type.
    ArithmeticOverflow,
}

/// Published when collateral enters custody.
#[derive(Clone, Copy, Debug, PartialEq, Eq)]
pub struct CollateralDeposited {
    pub user: Identity,
    pub amount: u64,
}

/// Published when a loan is paid back and the position closed.
#[derive(Clone, Copy, Debug, PartialEq, Eq)]
pub struct LoanRepaid {
    pub user: Identity,
    pub amount: u64,
}

/// Published when a third party seizes the collateral of a position.
#[derive(Clone, Copy, Debug, PartialEq, Eq)]
pub struct CollateralLiquidated {
    pub user: Identity,
    pub liquidator: Identity,
    pub amount: u64,
}

/// Published when part of the collateral leaves custody.
#[derive(Clone, Copy, Debug, PartialEq, Eq)]
pub struct CollateralWithdrawn {
    pub user: Identity,
    pub amount: u64,
}

/// Published when the terms of a loan change; it carries the terms in force
/// afterwards.
#[derive(Clone, Copy, Debug, PartialEq, Eq)]
pub struct LoanRefinanced {
    pub user: Identity,
    pub new_duration: i64,
    pub new_interest_rate: u64,
}

/// The movements that an accepted issuance asks of the ledger: the loan
/// minted to the borrower, and the protocol fee sent on to the treasury.
#[derive(Clone, Copy, Debug, PartialEq, Eq)]
pub struct LoanIssuance {
    pub loan_amount: u64,
    pub protocol_fee: u64,
}

/// The movements that an accepted liquidation asks of the ledger, and the
/// event it publishes.
#[derive(Clone, Copy, Debug, PartialEq, Eq)]
pub struct Liquidation {
    /// The liquidator's reward, 5% of the collateral.
    pub reward: u64,
    /// The rest of the collateral.
    pub remainder: u64,
    pub event: CollateralLiquidated,
}

} // verus!
