use anchor_lang::prelude::Pubkey;
use vstd::prelude::*;

use crate::delegation::{require_not_foreign, TokenAccount};
use crate::error::SubscriptionError;
use crate::state::{SubscriberDelegation, Subscription};

verus! {

/// The accounts a subscriber changes a subscription's allowance with.
#[derive(Debug, Clone, Copy, PartialEq, Eq)]
pub struct SetAllowance {
    pub subscription: Subscription,
    pub subscriber_delegation: SubscriberDelegation,
    pub subscriber_token_account: TokenAccount,
    pub delegate_authority: Pubkey,
}

impl SetAllowance {
    /// What setting the allowance to `new_allowance` does: the new pool total
    /// the token account is then approved for, or the error it stops on, and
    /// the accounts afterwards. The pool moves by the same difference as the
    /// allowance, and stops at zero on the way down.
    pub open spec fn outcome(self, new_allowance: u64) -> (
        Result<u64, SubscriptionError>,
        SetAllowance,
    ) {
        let previous = self.subscription.allowance_remaining;
        let committed = self.subscriber_delegation.committed_total;
        let total = if new_allowance >= previous {
            committed + (new_allowance - previous)
        } else if committed >= previous - new_allowance {
            committed - (previous - new_allowance)
        } else {
            0
        };
        if new_allowance == 0 {
            (Err(SubscriptionError::InvalidAllowance), self)
        } else if self.subscriber_token_account.is_foreign(self.delegate_authority) {
            (Err(SubscriptionError::ForeignDelegate), self)
        } else if total > u64::MAX {
            (Err(SubscriptionError::AllowanceOverflow), self)
        } else {
            (
                Ok(total as u64),
                SetAllowance {
                    subscription: Subscription {
                        allowance_remaining: new_allowance,
                        ..self.subscription
                    },
                    subscriber_delegation: SubscriberDelegation {
                        committed_total: total as u64,
                        ..self.subscriber_delegation
                    },
                    ..self
                },
            )
        }
    }

    /// Replaces the subscription's remaining allowance, moves the pool by the
    /// same difference, and returns the new pool total, which the token
    /// account is then approved for. An error leaves every account as it was.
    pub fn run(&mut self, new_allowance: u64) -> (r: Result<u64, SubscriptionError>)
        ensures
            (r, *final(self)) == old(self).outcome(new_allowance),
            r is Err ==> *final(self) == *old(self),
            r matches Ok(total) ==> {
                &&& total == final(self).subscriber_delegation.committed_total
                &&& final(self).subscription.allowance_remaining == new_allowance
            },
    {
        if new_allowance == 0 {
            return Err(SubscriptionError::InvalidAllowance);
        }
        match require_not_foreign(&self.subscriber_token_account, &self.delegate_authority) {
            Ok(()) => {},
            Err(e) => return Err(e),
        }
        let previous = self.subscription.allowance_remaining;
        let committed_total = if new_allowance >= previous {
            match self.subscriber_delegation.committed_total.checked_add(new_allowance - previous) {
                Some(total) => total,
                None => return Err(SubscriptionError::AllowanceOverflow),
            }
        } else {
            self.subscriber_delegation.committed_total.saturating_sub(previous - new_allowance)
        };
        self.subscriber_delegation.committed_total = committed_total;
        self.subscription.allowance_remaining = new_allowance;
        Ok(committed_total)
    }
}

} // verus!
