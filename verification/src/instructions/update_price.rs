use anchor_lang::prelude::Pubkey;
use vstd::prelude::*;

use crate::constants::PRICE_CHANGE_NOTICE_SECONDS;
use crate::error::SubscriptionError;
use crate::state::{Plan, PriceMode};

verus! {

/// Announced when a plan's price changes, for indexers and clients.
#[derive(Debug, Clone, Copy, PartialEq, Eq)]
pub struct PriceUpdated {
    pub plan: Pubkey,
    pub previous_amount: u64,
    pub amount_per_period: u64,
    pub amount_effective_at: i64,
}

/// The plan whose merchant changes its price.
#[derive(Debug, Clone, Copy, PartialEq, Eq)]
pub struct UpdatePrice {
    pub plan_address: Pubkey,
    pub plan: Plan,
}

impl UpdatePrice {
    /// The plan after announcing `new_amount` at `now`: the current interval
    /// becomes the previous one when it has taken force, an announcement that
    /// has not is dropped, and the new amount applies from `now` plus the
    /// notice.
    pub open spec fn repriced(self, new_amount: u64, now: i64) -> Plan {
        let matured = now >= self.plan.amount_effective_at;
        Plan {
            previous_amount: if matured {
                self.plan.amount_per_period
            } else {
                self.plan.previous_amount
            },
            previous_effective_at: if matured {
                self.plan.amount_effective_at
            } else {
                self.plan.previous_effective_at
            },
            amount_per_period: new_amount,
            amount_effective_at: (now + PRICE_CHANGE_NOTICE_SECONDS) as i64,
            ..self.plan
        }
    }

    /// Changes the price of a variable plan after the notice period, and
    /// returns the event announcing it. A fixed plan, a zero amount, and a date
    /// that does not fit in an `i64` are refused and leave the plan as it was.
    pub fn run(&mut self, new_amount: u64, now: i64) -> (r: Result<
        PriceUpdated,
        SubscriptionError,
    >)
        ensures
            old(self).plan.price_mode != PriceMode::Variable ==> r == Err::<
                PriceUpdated,
                SubscriptionError,
            >(SubscriptionError::PlanPriceFixed),
            old(self).plan.price_mode == PriceMode::Variable && new_amount == 0 ==> r == Err::<
                PriceUpdated,
                SubscriptionError,
            >(SubscriptionError::InvalidAmount),
            old(self).plan.price_mode == PriceMode::Variable && new_amount > 0 && now
                + PRICE_CHANGE_NOTICE_SECONDS > i64::MAX ==> r == Err::<
                PriceUpdated,
                SubscriptionError,
            >(SubscriptionError::ScheduleOverflow),
            r is Err ==> *final(self) == *old(self),
            old(self).plan.price_mode == PriceMode::Variable && new_amount > 0 && now
                + PRICE_CHANGE_NOTICE_SECONDS <= i64::MAX ==> {
                &&& *final(self) == (UpdatePrice {
                    plan: old(self).repriced(new_amount, now),
                    ..*old(self)
                })
                &&& r == Ok::<PriceUpdated, SubscriptionError>(
                    PriceUpdated {
                        plan: old(self).plan_address,
                        previous_amount: final(self).plan.previous_amount,
                        amount_per_period: new_amount,
                        amount_effective_at: final(self).plan.amount_effective_at,
                    },
                )
            },
            old(self).plan.is_well_formed() ==> final(self).plan.is_well_formed(),
    {
        if self.plan.price_mode != PriceMode::Variable {
            return Err(SubscriptionError::PlanPriceFixed);
        }
        if new_amount == 0 {
            return Err(SubscriptionError::InvalidAmount);
        }
        let amount_effective_at = match now.checked_add(PRICE_CHANGE_NOTICE_SECONDS) {
            Some(at) => at,
            None => return Err(SubscriptionError::ScheduleOverflow),
        };
        if now >= self.plan.amount_effective_at {
            self.plan.previous_amount = self.plan.amount_per_period;
            self.plan.previous_effective_at = self.plan.amount_effective_at;
        }
        self.plan.amount_per_period = new_amount;
        self.plan.amount_effective_at = amount_effective_at;
        Ok(
            PriceUpdated {
                plan: self.plan_address,
                previous_amount: self.plan.previous_amount,
                amount_per_period: self.plan.amount_per_period,
                amount_effective_at: self.plan.amount_effective_at,
            },
        )
    }
}

} // verus!
