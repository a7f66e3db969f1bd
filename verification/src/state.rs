use anchor_lang::prelude::Pubkey;
use vstd::prelude::*;

use crate::error::SubscriptionError;

verus! {

/// Whether a plan's price is a fixed term of the offer or may be changed by
/// its merchant after notice.
#[derive(Debug, Clone, Copy, PartialEq, Eq, Structural)]
pub enum PriceMode {
    Fixed,
    Variable,
}

/// Per subscriber and mint: the total that subscriber's open subscriptions on
/// that mint may still draw, which is what the token delegation should be.
#[derive(Debug, Clone, Copy, PartialEq, Eq)]
pub struct SubscriberDelegation {
    pub subscriber: Pubkey,
    pub mint: Pubkey,
    pub committed_total: u64,
    pub bump: u8,
}

/// One subscriber's subscription to one plan.
#[derive(Debug, Clone, Copy, PartialEq, Eq)]
pub struct Subscription {
    pub plan: Pubkey,
    pub subscriber: Pubkey,
    pub next_charge_at: i64,
    pub allowance_remaining: u64,
    pub max_amount_per_period: u64,
    pub bump: u8,
}

/// A merchant's published plan. The price is described by two intervals: the
/// current `amount_per_period`, in force from `amount_effective_at`, and the one
/// before it, in force from `previous_effective_at`.
#[derive(Debug, Clone, Copy, PartialEq, Eq)]
pub struct Plan {
    pub merchant: Pubkey,
    pub mint: Pubkey,
    pub plan_id: u64,
    pub amount_per_period: u64,
    pub amount_effective_at: i64,
    pub previous_amount: u64,
    pub previous_effective_at: i64,
    pub period_seconds: i64,
    pub price_mode: PriceMode,
    pub is_active: bool,
    pub bump: u8,
}

impl Plan {
    /// What every plan the program publishes satisfies: a positive price and a
    /// positive billing period.
    pub open spec fn is_well_formed(self) -> bool {
        self.amount_per_period > 0 && self.period_seconds > 0
    }

    /// The price in force at instant `at`, or `PriceHistoryUnavailable` when
    /// `at` precedes both recorded intervals.
    pub open spec fn price_at(self, at: i64) -> Result<u64, SubscriptionError> {
        if at >= self.amount_effective_at {
            Ok(self.amount_per_period)
        } else if at >= self.previous_effective_at {
            Ok(self.previous_amount)
        } else {
            Err(SubscriptionError::PriceHistoryUnavailable)
        }
    }

    /// The price in force at instant `at`.
    pub fn applicable_amount(&self, at: i64) -> (r: Result<u64, SubscriptionError>)
        ensures
            r == self.price_at(at),
    {
        if at >= self.amount_effective_at {
            Ok(self.amount_per_period)
        } else if at >= self.previous_effective_at {
            Ok(self.previous_amount)
        } else {
            Err(SubscriptionError::PriceHistoryUnavailable)
        }
    }
}

} // verus!
