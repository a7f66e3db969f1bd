use vstd::prelude::*;

use crate::error::SubscriptionError;
use crate::state::Subscription;

verus! {

/// The account a subscriber changes their per-charge cap on.
#[derive(Debug, Clone, Copy, PartialEq, Eq)]
pub struct SetMaxAmount {
    pub subscription: Subscription,
}

impl SetMaxAmount {
    /// Sets the largest amount a single charge may take. A cap below the plan's
    /// price is allowed and pauses charging; zero is refused.
    pub fn run(&mut self, new_max: u64) -> (r: Result<(), SubscriptionError>)
        ensures
            new_max == 0 ==> r == Err::<(), SubscriptionError>(SubscriptionError::InvalidMaxAmount)
                && *final(self) == *old(self),
            new_max > 0 ==> r is Ok && *final(self) == (SetMaxAmount {
                subscription: Subscription {
                    max_amount_per_period: new_max,
                    ..old(self).subscription
                },
            }),
    {
        if new_max == 0 {
            return Err(SubscriptionError::InvalidMaxAmount);
        }
        self.subscription.max_amount_per_period = new_max;
        Ok(())
    }
}

} // verus!
