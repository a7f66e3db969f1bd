use vstd::prelude::*;

verus! {

/// Every way an instruction of the program refuses its input.
#[derive(Debug, Clone, Copy, PartialEq, Eq, Structural)]
pub enum SubscriptionError {
    /// Amount per period must be greater than zero.
    InvalidAmount,
    /// Period must be greater than zero seconds.
    InvalidPeriod,
    /// Allowance must be greater than zero.
    InvalidAllowance,
    /// Maximum amount per period must be greater than zero.
    InvalidMaxAmount,
    /// Plan is not accepting charges.
    PlanInactive,
    /// The billing period has not elapsed yet.
    PeriodNotElapsed,
    /// Remaining allowance does not cover this charge.
    AllowanceExhausted,
    /// Total allowance would overflow.
    AllowanceOverflow,
    /// Another program holds the delegation on this token account.
    ForeignDelegate,
    /// The delegation was withdrawn or is too small to cover this charge.
    DelegateRevoked,
    /// Billing schedule arithmetic overflowed.
    ScheduleOverflow,
    /// Merchant token account is not owned by the plan merchant.
    WrongMerchantAccount,
    /// Token account mint does not match the plan mint.
    WrongMint,
    /// The charge exceeds the subscriber's maximum amount per period.
    PriceAboveSubscriberMax,
    /// The plan was published with a fixed price.
    PlanPriceFixed,
    /// The price in force at the billed date is no longer recorded.
    PriceHistoryUnavailable,
}

} // verus!
