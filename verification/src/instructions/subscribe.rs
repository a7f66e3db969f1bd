use anchor_lang::prelude::Pubkey;
use vstd::prelude::*;

use crate::delegation::{require_not_foreign, TokenAccount};
use crate::error::SubscriptionError;
use crate::state::{Plan, SubscriberDelegation, Subscription};

verus! {

/// The accounts a subscription is opened with. `subscription` is the account
/// being created and `subscriber_delegation` the subscriber's pool on the
/// plan's mint, zeroed when it is created by this call.
#[derive(Debug, Clone, Copy, PartialEq, Eq)]
pub struct Subscribe {
    pub subscriber: Pubkey,
    pub plan_address: Pubkey,
    pub plan: Plan,
    pub subscription: Subscription,
    pub subscriber_delegation: SubscriberDelegation,
    pub subscriber_token_account: TokenAccount,
    pub delegate_authority: Pubkey,
}

impl Subscribe {
    /// What subscribing at `now` does: the total the subscriber's token account
    /// is then approved for, or the error it stops on, and the accounts after.
    pub open spec fn outcome(
        self,
        allowance: u64,
        max_amount_per_period: u64,
        now: i64,
        subscription_bump: u8,
        delegation_bump: u8,
    ) -> (Result<u64, SubscriptionError>, Subscribe) {
        let committed = self.subscriber_delegation.committed_total + allowance;
        if allowance == 0 {
            (Err(SubscriptionError::InvalidAllowance), self)
        } else if max_amount_per_period == 0 {
            (Err(SubscriptionError::InvalidMaxAmount), self)
        } else if !self.plan.is_active {
            (Err(SubscriptionError::PlanInactive), self)
        } else if self.plan.amount_per_period > max_amount_per_period {
            (Err(SubscriptionError::PriceAboveSubscriberMax), self)
        } else if self.subscriber_token_account.is_foreign(self.delegate_authority) {
            (Err(SubscriptionError::ForeignDelegate), self)
        } else if committed > u64::MAX {
            (Err(SubscriptionError::AllowanceOverflow), self)
        } else {
            (
                Ok(committed as u64),
                Subscribe {
                    subscription: Subscription {
                        plan: self.plan_address,
                        subscriber: self.subscriber,
                        next_charge_at: now,
                        allowance_remaining: allowance,
                        max_amount_per_period: max_amount_per_period,
                        bump: subscription_bump,
                    },
                    subscriber_delegation: SubscriberDelegation {
                        subscriber: self.subscriber,
                        mint: self.plan.mint,
                        committed_total: committed as u64,
                        bump: delegation_bump,
                    },
                    ..self
                },
            )
        }
    }

    /// Opens a subscription whose first charge is due at once, adds its
    /// allowance to the subscriber's pool on the plan's mint, and returns the
    /// new pool total, which the subscriber's token account is then approved
    /// for. An error leaves every account as it was.
    pub fn run(
        &mut self,
        allowance: u64,
        max_amount_per_period: u64,
        now: i64,
        subscription_bump: u8,
        delegation_bump: u8,
    ) -> (r: Result<u64, SubscriptionError>)
        ensures
            (r, *final(self)) == old(self).outcome(
                allowance,
                max_amount_per_period,
                now,
                subscription_bump,
                delegation_bump,
            ),
            r is Err ==> *final(self) == *old(self),
            r matches Ok(total) ==> {
                &&& total == old(self).subscriber_delegation.committed_total + allowance
                &&& total == final(self).subscriber_delegation.committed_total
                &&& final(self).subscription.allowance_remaining == allowance
                &&& final(self).subscription.next_charge_at == now
                &&& old(self).plan.amount_per_period <= max_amount_per_period
            },
            final(self).plan == old(self).plan,
    {
        if allowance == 0 {
            return Err(SubscriptionError::InvalidAllowance);
        }
        if max_amount_per_period == 0 {
            return Err(SubscriptionError::InvalidMaxAmount);
        }
        if !self.plan.is_active {
            return Err(SubscriptionError::PlanInactive);
        }
        if self.plan.amount_per_period > max_amount_per_period {
            return Err(SubscriptionError::PriceAboveSubscriberMax);
        }
        match require_not_foreign(&self.subscriber_token_account, &self.delegate_authority) {
            Ok(()) => {},
            Err(e) => return Err(e),
        }
        let committed_total = match self.subscriber_delegation.committed_total.checked_add(
            allowance,
        ) {
            Some(total) => total,
            None => return Err(SubscriptionError::AllowanceOverflow),
        };
        self.subscriber_delegation.subscriber = self.subscriber;
        self.subscriber_delegation.mint = self.plan.mint;
        self.subscriber_delegation.committed_total = committed_total;
        self.subscriber_delegation.bump = delegation_bump;
        self.subscription = Subscription {
            plan: self.plan_address,
            subscriber: self.subscriber,
            next_charge_at: now,
            allowance_remaining: allowance,
            max_amount_per_period,
            bump: subscription_bump,
        };
        Ok(committed_total)
    }
}

} // verus!
