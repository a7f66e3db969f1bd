use anchor_lang::prelude::Pubkey;
use vstd::arithmetic::div_mod::{lemma_fundamental_div_mod, lemma_mod_multiples_basic};
use vstd::arithmetic::mul::lemma_mul_inequality;
use vstd::prelude::*;

use crate::delegation::{is_held_by, TokenAccount};
use crate::error::SubscriptionError;
use crate::pubkey::same_key;
use crate::state::{Plan, SubscriberDelegation, Subscription};

verus! {

/// The due date after a charge at `now` of a period that fell due at `due`:
/// `due` moved forward by the fewest whole periods that put it after `now`,
/// or `None` when that does not fit in an `i64`.
pub open spec fn next_due_date(due: i64, period: i64, now: i64) -> Option<i64> {
    let elapsed = now - due;
    let periods = elapsed / (period as int) + 1;
    let advanced = due + periods * period;
    if elapsed > i64::MAX || periods > i64::MAX || periods * period > i64::MAX || advanced
        > i64::MAX {
        None
    } else {
        Some(advanced as i64)
    }
}

/// Where the schedule lands: strictly after `now`, at most one period later,
/// and a whole number of periods after `due`.
pub proof fn lemma_next_due_date(due: i64, period: i64, now: i64)
    requires
        period > 0,
        now >= due,
        next_due_date(due, period, now) is Some,
    ensures
        ({
            let next = next_due_date(due, period, now)->0;
            &&& now < next <= now + period
            &&& next > due
            &&& (next - due) % (period as int) == 0
            &&& (next - due) / (period as int) == (now - due) / (period as int) + 1
        }),
{
    let elapsed = now - due;
    let p = period as int;
    let q = elapsed / p;
    lemma_fundamental_div_mod(elapsed, p);
    assert((q + 1) * p == q * p + p) by (nonlinear_arith);
    lemma_mod_multiples_basic(q + 1, p);
    assert(((q + 1) * p) / p == q + 1) by (nonlinear_arith)
        requires
            p > 0,
    ;
}

/// The accounts a charge reads and writes.
#[derive(Debug, Clone, Copy, PartialEq, Eq)]
pub struct Charge {
    pub plan: Plan,
    pub subscription: Subscription,
    pub subscriber_delegation: SubscriberDelegation,
    pub subscriber_token_account: TokenAccount,
    pub merchant_token_account: TokenAccount,
    pub delegate_authority: Pubkey,
}

impl Charge {
    /// What a charge at `now` does: the amount it moves from the subscriber to
    /// the merchant, or the error it stops on, and the accounts afterwards.
    pub open spec fn outcome(self, now: i64) -> (Result<u64, SubscriptionError>, Charge) {
        let plan = self.plan;
        let due = self.subscription.next_charge_at;
        if self.merchant_token_account.owner != plan.merchant {
            (Err(SubscriptionError::WrongMerchantAccount), self)
        } else if self.merchant_token_account.mint != plan.mint {
            (Err(SubscriptionError::WrongMint), self)
        } else if !plan.is_active {
            (Err(SubscriptionError::PlanInactive), self)
        } else if now < due {
            (Err(SubscriptionError::PeriodNotElapsed), self)
        } else {
            match plan.price_at(due) {
                Err(e) => (Err(e), self),
                Ok(amount) => {
                    if amount > self.subscription.max_amount_per_period {
                        (Err(SubscriptionError::PriceAboveSubscriberMax), self)
                    } else if self.subscription.allowance_remaining < amount {
                        (Err(SubscriptionError::AllowanceExhausted), self)
                    } else if !self.subscriber_token_account.delegates_to(self.delegate_authority)
                        || self.subscriber_token_account.delegated_amount < amount {
                        (Err(SubscriptionError::DelegateRevoked), self)
                    } else {
                        match next_due_date(due, plan.period_seconds, now) {
                            None => (Err(SubscriptionError::ScheduleOverflow), self),
                            Some(next) => (
                                Ok(amount),
                                Charge {
                                    subscription: Subscription {
                                        next_charge_at: next,
                                        allowance_remaining: (self.subscription.allowance_remaining
                                            - amount) as u64,
                                        ..self.subscription
                                    },
                                    subscriber_delegation: SubscriberDelegation {
                                        committed_total: if self.subscriber_delegation.committed_total
                                            >= amount {
                                            (self.subscriber_delegation.committed_total
                                                - amount) as u64
                                        } else {
                                            0
                                        },
                                        ..self.subscriber_delegation
                                    },
                                    ..self
                                },
                            ),
                        }
                    }
                },
            }
        }
    }

    /// Moves the schedule past `now` by whole periods: a backlog of several
    /// periods is billed once and the billing anniversary does not drift.
    fn advance_schedule(&mut self, now: i64) -> (r: Result<(), SubscriptionError>)
        requires
            old(self).plan.period_seconds > 0,
            now >= old(self).subscription.next_charge_at,
        ensures
            match next_due_date(old(self).subscription.next_charge_at, old(self).plan.period_seconds, now) {
                Some(next) => r is Ok && *final(self) == (Charge {
                    subscription: Subscription { next_charge_at: next, ..old(self).subscription },
                    ..*old(self)
                }),
                None => r == Err::<(), SubscriptionError>(SubscriptionError::ScheduleOverflow)
                    && *final(self) == *old(self),
            },
    {
        let due = self.subscription.next_charge_at;
        let period = self.plan.period_seconds;
        let elapsed = match now.checked_sub(due) {
            Some(e) => e,
            None => return Err(SubscriptionError::ScheduleOverflow),
        };
        let whole = match elapsed.checked_div(period) {
            Some(q) => q,
            None => return Err(SubscriptionError::ScheduleOverflow),
        };
        proof {
            assert(whole == elapsed as int / period as int);
        }
        let periods_to_advance = match whole.checked_add(1) {
            Some(p) => p,
            None => return Err(SubscriptionError::ScheduleOverflow),
        };
        let step = match periods_to_advance.checked_mul(period) {
            Some(s) => s,
            None => return Err(SubscriptionError::ScheduleOverflow),
        };
        proof {
            lemma_mul_inequality(0, periods_to_advance as int, period as int);
        }
        let next = match due.checked_add(step) {
            Some(n) => n,
            None => return Err(SubscriptionError::ScheduleOverflow),
        };
        self.subscription.next_charge_at = next;
        Ok(())
    }

    /// Bills one due period, at the price that was in force when the period
    /// fell due. The returned amount is what the delegate authority then
    /// transfers from the subscriber's account to the merchant's; an error
    /// leaves every account as it was.
    pub fn run(&mut self, now: i64) -> (r: Result<u64, SubscriptionError>)
        requires
            old(self).plan.is_well_formed(),
        ensures
            (r, *final(self)) == old(self).outcome(now),
            final(self).plan == old(self).plan,
            r is Err ==> *final(self) == *old(self),
            r matches Ok(amount) ==> {
                &&& Ok::<u64, SubscriptionError>(amount) == old(self).plan.price_at(
                    old(self).subscription.next_charge_at,
                )
                &&& amount <= old(self).subscription.max_amount_per_period
                &&& amount <= old(self).subscription.allowance_remaining
                &&& final(self).subscription.allowance_remaining + amount
                    == old(self).subscription.allowance_remaining
                &&& old(self).subscriber_token_account.delegates_to(old(self).delegate_authority)
                &&& amount <= old(self).subscriber_token_account.delegated_amount
                &&& old(self).subscription.next_charge_at <= now
                &&& now < final(self).subscription.next_charge_at <= now
                    + old(self).plan.period_seconds
                &&& (final(self).subscription.next_charge_at - old(self).subscription.next_charge_at)
                    % (old(self).plan.period_seconds as int) == 0
            },
    {
        if !same_key(&self.merchant_token_account.owner, &self.plan.merchant) {
            return Err(SubscriptionError::WrongMerchantAccount);
        }
        if !same_key(&self.merchant_token_account.mint, &self.plan.mint) {
            return Err(SubscriptionError::WrongMint);
        }
        if !self.plan.is_active {
            return Err(SubscriptionError::PlanInactive);
        }
        if now < self.subscription.next_charge_at {
            return Err(SubscriptionError::PeriodNotElapsed);
        }
        let amount = match self.plan.applicable_amount(self.subscription.next_charge_at) {
            Ok(a) => a,
            Err(e) => return Err(e),
        };
        if amount > self.subscription.max_amount_per_period {
            return Err(SubscriptionError::PriceAboveSubscriberMax);
        }
        if self.subscription.allowance_remaining < amount {
            return Err(SubscriptionError::AllowanceExhausted);
        }
        if !is_held_by(&self.subscriber_token_account, &self.delegate_authority)
            || self.subscriber_token_account.delegated_amount < amount {
            return Err(SubscriptionError::DelegateRevoked);
        }
        let ghost before = *self;
        match self.advance_schedule(now) {
            Ok(()) => {},
            Err(e) => return Err(e),
        }
        proof {
            lemma_next_due_date(before.subscription.next_charge_at, before.plan.period_seconds, now);
        }
        self.subscription.allowance_remaining = self.subscription.allowance_remaining - amount;
        self.subscriber_delegation.committed_total =
            self.subscriber_delegation.committed_total.saturating_sub(amount);
        Ok(amount)
    }
}

} // verus!
