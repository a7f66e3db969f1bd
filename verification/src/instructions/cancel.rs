use anchor_lang::prelude::Pubkey;
use vstd::prelude::*;

use crate::delegation::{is_held_by, TokenAccount};
use crate::state::{SubscriberDelegation, Subscription};

verus! {

/// The accounts a subscription is cancelled with; the subscription account
/// itself is closed once `run` returns.
#[derive(Debug, Clone, Copy, PartialEq, Eq)]
pub struct Cancel {
    pub subscription: Subscription,
    pub subscriber_delegation: SubscriberDelegation,
    pub subscriber_token_account: TokenAccount,
    pub delegate_authority: Pubkey,
}

impl Cancel {
    /// The pool total once the cancelled subscription's remaining allowance
    /// has left it, stopping at zero.
    pub open spec fn remaining_commitment(self) -> u64 {
        if self.subscriber_delegation.committed_total >= self.subscription.allowance_remaining {
            (self.subscriber_delegation.committed_total
                - self.subscription.allowance_remaining) as u64
        } else {
            0
        }
    }

    /// Takes the subscription's remaining allowance out of the subscriber's
    /// pool. Cancelling never fails: it returns the amount to re-approve the
    /// token account for when this program still holds its delegation, and
    /// `None` when the delegate is absent or foreign, which is left untouched.
    pub fn run(&mut self) -> (r: Option<u64>)
        ensures
            final(self).subscriber_delegation.committed_total == old(self).remaining_commitment(),
            *final(self) == (Cancel {
                subscriber_delegation: SubscriberDelegation {
                    committed_total: old(self).remaining_commitment(),
                    ..old(self).subscriber_delegation
                },
                ..*old(self)
            }),
            old(self).subscriber_token_account.delegates_to(old(self).delegate_authority) ==> r
                == Some(old(self).remaining_commitment()),
            !old(self).subscriber_token_account.delegates_to(old(self).delegate_authority) ==> r
                is None,
    {
        let committed_total = self.subscriber_delegation.committed_total.saturating_sub(
            self.subscription.allowance_remaining,
        );
        self.subscriber_delegation.committed_total = committed_total;
        if is_held_by(&self.subscriber_token_account, &self.delegate_authority) {
            Some(committed_total)
        } else {
            None
        }
    }
}

} // verus!
