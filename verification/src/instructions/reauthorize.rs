use anchor_lang::prelude::Pubkey;
use vstd::prelude::*;

use crate::delegation::{require_not_foreign, TokenAccount};
use crate::error::SubscriptionError;
use crate::state::SubscriberDelegation;

verus! {

/// The accounts a subscriber restores their delegation on one mint with.
#[derive(Debug, Clone, Copy, PartialEq, Eq)]
pub struct Reauthorize {
    pub subscriber_delegation: SubscriberDelegation,
    pub subscriber_token_account: TokenAccount,
    pub delegate_authority: Pubkey,
}

impl Reauthorize {
    /// Returns the pool total, which the token account is then approved for,
    /// after an external revoke or approve; refuses when another party holds
    /// the delegation. Changes no account.
    pub fn run(&self) -> (r: Result<u64, SubscriptionError>)
        ensures
            self.subscriber_token_account.is_foreign(self.delegate_authority) ==> r == Err::<
                u64,
                SubscriptionError,
            >(SubscriptionError::ForeignDelegate),
            !self.subscriber_token_account.is_foreign(self.delegate_authority) ==> r == Ok::<
                u64,
                SubscriptionError,
            >(self.subscriber_delegation.committed_total),
    {
        match require_not_foreign(&self.subscriber_token_account, &self.delegate_authority) {
            Ok(()) => Ok(self.subscriber_delegation.committed_total),
            Err(e) => Err(e),
        }
    }
}

} // verus!
