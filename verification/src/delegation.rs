use anchor_lang::prelude::Pubkey;
use vstd::prelude::*;

use crate::error::SubscriptionError;
use crate::pubkey::same_key;

verus! {

/// What the program reads of an SPL token account: its mint, its owner, and
/// the one delegate it may name together with that delegate's allowance.
#[derive(Debug, Clone, Copy, PartialEq, Eq)]
pub struct TokenAccount {
    pub mint: Pubkey,
    pub owner: Pubkey,
    pub delegate: Option<Pubkey>,
    pub delegated_amount: u64,
}

impl TokenAccount {
    /// The account's delegate is `delegate`.
    pub open spec fn delegates_to(self, delegate: Pubkey) -> bool {
        self.delegate == Some(delegate)
    }

    /// Some other party than `delegate` holds the account's delegation.
    pub open spec fn is_foreign(self, delegate: Pubkey) -> bool {
        self.delegate is Some && self.delegate != Some(delegate)
    }
}

/// Whether `token_account` currently names `delegate` as its delegate.
pub fn is_held_by(token_account: &TokenAccount, delegate: &Pubkey) -> (r: bool)
    ensures
        r == token_account.delegates_to(*delegate),
{
    match token_account.delegate {
        Some(current) => same_key(&current, delegate),
        None => false,
    }
}

/// Refuses to touch a delegation that some other party holds; an account with
/// no delegate, or delegated to `delegate`, passes.
pub fn require_not_foreign(token_account: &TokenAccount, delegate: &Pubkey) -> (r: Result<
    (),
    SubscriptionError,
>)
    ensures
        token_account.is_foreign(*delegate) ==> r == Err::<(), SubscriptionError>(
            SubscriptionError::ForeignDelegate,
        ),
        !token_account.is_foreign(*delegate) ==> r is Ok,
{
    match token_account.delegate {
        Some(current) => {
            if same_key(&current, delegate) {
                Ok(())
            } else {
                Err(SubscriptionError::ForeignDelegate)
            }
        },
        None => Ok(()),
    }
}

} // verus!
