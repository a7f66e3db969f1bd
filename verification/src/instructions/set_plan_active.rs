use vstd::prelude::*;

use crate::error::SubscriptionError;
use crate::state::Plan;

verus! {

/// The plan its merchant takes off sale or puts back on.
#[derive(Debug, Clone, Copy, PartialEq, Eq)]
pub struct SetPlanActive {
    pub plan: Plan,
}

impl SetPlanActive {
    /// Sets whether the plan accepts new subscriptions and charges; nothing
    /// else about the plan changes.
    pub fn run(&mut self, is_active: bool) -> (r: Result<(), SubscriptionError>)
        ensures
            r is Ok,
            final(self).plan == (Plan { is_active: is_active, ..old(self).plan }),
    {
        self.plan.is_active = is_active;
        Ok(())
    }
}

} // verus!
