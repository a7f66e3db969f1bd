use anchor_lang::prelude::Pubkey;
use vstd::prelude::*;

use crate::error::SubscriptionError;
use crate::state::{Plan, PriceMode};

verus! {

/// The accounts a merchant publishes a plan with; `plan` is the account being
/// created.
#[derive(Debug, Clone, Copy, PartialEq, Eq)]
pub struct CreatePlan {
    pub merchant: Pubkey,
    pub mint: Pubkey,
    pub plan: Plan,
}

impl CreatePlan {
    /// The plan a successful `run` publishes: active, and priced at
    /// `amount_per_period` at every instant from zero on.
    pub open spec fn published(
        self,
        plan_id: u64,
        amount_per_period: u64,
        period_seconds: i64,
        price_mode: PriceMode,
        bump: u8,
    ) -> Plan {
        Plan {
            merchant: self.merchant,
            mint: self.mint,
            plan_id: plan_id,
            amount_per_period: amount_per_period,
            amount_effective_at: 0,
            previous_amount: amount_per_period,
            previous_effective_at: 0,
            period_seconds: period_seconds,
            price_mode: price_mode,
            is_active: true,
            bump: bump,
        }
    }

    /// Publishes a plan, refusing a zero price and a period that is not
    /// positive. An error leaves the accounts as they were.
    pub fn run(
        &mut self,
        plan_id: u64,
        amount_per_period: u64,
        period_seconds: i64,
        price_mode: PriceMode,
        bump: u8,
    ) -> (r: Result<(), SubscriptionError>)
        ensures
            amount_per_period == 0 ==> r == Err::<(), SubscriptionError>(
                SubscriptionError::InvalidAmount,
            ),
            amount_per_period > 0 && period_seconds <= 0 ==> r == Err::<(), SubscriptionError>(
                SubscriptionError::InvalidPeriod,
            ),
            r is Err ==> *final(self) == *old(self),
            amount_per_period > 0 && period_seconds > 0 ==> r is Ok && *final(self) == (
            CreatePlan {
                plan: old(self).published(
                    plan_id,
                    amount_per_period,
                    period_seconds,
                    price_mode,
                    bump,
                ),
                ..*old(self)
            }),
            r is Ok ==> final(self).plan.is_well_formed(),
    {
        if amount_per_period == 0 {
            return Err(SubscriptionError::InvalidAmount);
        }
        if period_seconds <= 0 {
            return Err(SubscriptionError::InvalidPeriod);
        }
        self.plan = Plan {
            merchant: self.merchant,
            mint: self.mint,
            plan_id,
            amount_per_period,
            amount_effective_at: 0,
            previous_amount: amount_per_period,
            previous_effective_at: 0,
            period_seconds,
            price_mode,
            is_active: true,
            bump,
        };
        Ok(())
    }
}

} // verus!
