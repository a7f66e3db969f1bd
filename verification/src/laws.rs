//! Properties that span instructions or several calls of one.
use vstd::prelude::*;

use crate::constants::PRICE_CHANGE_NOTICE_SECONDS;
use crate::error::SubscriptionError;
use crate::instructions::charge::{lemma_next_due_date, next_due_date, Charge};
use crate::instructions::cancel::Cancel;
use crate::instructions::create_plan::CreatePlan;
use crate::instructions::set_allowance::SetAllowance;
use crate::instructions::subscribe::Subscribe;
use crate::instructions::update_price::UpdatePrice;
use crate::delegation::TokenAccount;
use crate::state::{Plan, PriceMode, SubscriberDelegation, Subscription};
use anchor_lang::prelude::Pubkey;
use vstd::arithmetic::div_mod::lemma_fundamental_div_mod;

verus! {

/// The sum of a sequence of allowances.
pub open spec fn total(allowances: Seq<u64>) -> int
    decreases allowances.len(),
{
    if allowances.len() == 0 {
        0
    } else {
        total(allowances.drop_last()) + allowances.last()
    }
}

/// A sum of allowances is never negative.
pub proof fn lemma_total_nonnegative(allowances: Seq<u64>)
    ensures
        total(allowances) >= 0,
    decreases allowances.len(),
{
    if allowances.len() > 0 {
        lemma_total_nonnegative(allowances.drop_last());
    }
}

/// A freshly published plan is a constant price: at every instant from zero on
/// it bills the amount it was published with.
pub proof fn fresh_plan_reads_as_a_constant_price(
    accounts: CreatePlan,
    plan_id: u64,
    amount_per_period: u64,
    period_seconds: i64,
    price_mode: PriceMode,
    bump: u8,
    at: i64,
)
    requires
        at >= 0,
    ensures
        accounts.published(plan_id, amount_per_period, period_seconds, price_mode, bump).price_at(
            at,
        ) == Ok::<u64, SubscriptionError>(amount_per_period),
{
}

/// A backlog collapses to one payment: once a charge has succeeded at `now`,
/// charging the same subscription again at `now` fails with
/// `PeriodNotElapsed`, however many periods were overdue.
pub proof fn a_charge_cannot_repeat_at_the_same_instant(accounts: Charge, now: i64)
    requires
        accounts.plan.is_well_formed(),
        accounts.outcome(now).0 is Ok,
    ensures
        accounts.outcome(now).1.outcome(now).0 == Err::<u64, SubscriptionError>(
            SubscriptionError::PeriodNotElapsed,
        ),
{
    lemma_next_due_date(accounts.subscription.next_charge_at, accounts.plan.period_seconds, now);
}

/// Crank timing cannot change a bill: two charges of the same subscription at
/// different instants that both succeed move the same amount and leave the
/// same allowance and pool behind.
pub proof fn crank_timing_does_not_change_the_bill(accounts: Charge, first: i64, second: i64)
    requires
        accounts.outcome(first).0 is Ok,
        accounts.outcome(second).0 is Ok,
    ensures
        accounts.outcome(first).0 == accounts.outcome(second).0,
        accounts.outcome(first).1.subscription.allowance_remaining == accounts.outcome(
            second,
        ).1.subscription.allowance_remaining,
        accounts.outcome(first).1.subscriber_delegation == accounts.outcome(
            second,
        ).1.subscriber_delegation,
{
}

/// The first charge of a new subscription is due at once: a charge at the
/// instant of subscribing is never refused as early.
pub proof fn the_first_charge_is_due_at_once(
    accounts: Subscribe,
    allowance: u64,
    max_amount_per_period: u64,
    now: i64,
    subscription_bump: u8,
    delegation_bump: u8,
    charge: Charge,
)
    requires
        accounts.outcome(allowance, max_amount_per_period, now, subscription_bump, delegation_bump).0 is Ok,
        charge.subscription == accounts.outcome(
            allowance,
            max_amount_per_period,
            now,
            subscription_bump,
            delegation_bump,
        ).1.subscription,
    ensures
        charge.outcome(now).0 != Err::<u64, SubscriptionError>(
            SubscriptionError::PeriodNotElapsed,
        ),
{
}

/// Subscribing keeps the pool reconciled: when the pool equals the allowances
/// of the subscriber's other open subscriptions on the mint, afterwards it
/// equals those plus the new subscription's allowance.
pub proof fn subscribing_keeps_the_pool_reconciled(
    accounts: Subscribe,
    allowance: u64,
    max_amount_per_period: u64,
    now: i64,
    subscription_bump: u8,
    delegation_bump: u8,
    others: Seq<u64>,
)
    requires
        accounts.subscriber_delegation.committed_total == total(others),
        accounts.outcome(allowance, max_amount_per_period, now, subscription_bump, delegation_bump).0 is Ok,
    ensures
        ({
            let after = accounts.outcome(
                allowance,
                max_amount_per_period,
                now,
                subscription_bump,
                delegation_bump,
            ).1;
            after.subscriber_delegation.committed_total == total(
                others.push(after.subscription.allowance_remaining),
            )
        }),
{
    let after = accounts.outcome(
        allowance,
        max_amount_per_period,
        now,
        subscription_bump,
        delegation_bump,
    ).1;
    assert(others.push(after.subscription.allowance_remaining).drop_last() =~= others);
}

/// Charging keeps the pool reconciled: when the pool equals this
/// subscription's allowance plus those of the subscriber's other open
/// subscriptions on the mint, it still does after a successful charge.
pub proof fn charging_keeps_the_pool_reconciled(accounts: Charge, now: i64, others: Seq<u64>)
    requires
        accounts.subscriber_delegation.committed_total == total(others)
            + accounts.subscription.allowance_remaining,
        accounts.outcome(now).0 is Ok,
    ensures
        accounts.outcome(now).1.subscriber_delegation.committed_total == total(others)
            + accounts.outcome(now).1.subscription.allowance_remaining,
{
    lemma_total_nonnegative(others);
}

/// Changing an allowance keeps the pool reconciled: the pool moves by exactly
/// the difference, so it still equals the sum of the open allowances.
pub proof fn setting_the_allowance_keeps_the_pool_reconciled(
    accounts: SetAllowance,
    new_allowance: u64,
    others: Seq<u64>,
)
    requires
        accounts.subscriber_delegation.committed_total == total(others)
            + accounts.subscription.allowance_remaining,
        accounts.outcome(new_allowance).0 is Ok,
    ensures
        accounts.outcome(new_allowance).1.subscriber_delegation.committed_total == total(others)
            + new_allowance,
{
    lemma_total_nonnegative(others);
}

/// Cancelling keeps the pool reconciled: the cancelled subscription's
/// allowance leaves the pool and nothing else does.
pub proof fn cancelling_keeps_the_pool_reconciled(accounts: Cancel, others: Seq<u64>)
    requires
        accounts.subscriber_delegation.committed_total == total(others)
            + accounts.subscription.allowance_remaining,
    ensures
        accounts.remaining_commitment() == total(others),
{
    lemma_total_nonnegative(others);
}

/// A price change waits out its notice: at every instant from the
/// announcement until the notice ends, the plan bills the price that was in
/// force when the change was announced.
pub proof fn a_price_change_waits_for_its_notice(
    accounts: UpdatePrice,
    new_amount: u64,
    now: i64,
    at: i64,
)
    requires
        now + PRICE_CHANGE_NOTICE_SECONDS <= i64::MAX,
        accounts.plan.price_at(now) is Ok,
        now <= at < now + PRICE_CHANGE_NOTICE_SECONDS,
    ensures
        accounts.repriced(new_amount, now).price_at(at) == accounts.plan.price_at(now),
{
}

/// Once its notice has passed, an announced price is the price billed.
pub proof fn a_price_change_applies_after_its_notice(
    accounts: UpdatePrice,
    new_amount: u64,
    now: i64,
    at: i64,
)
    requires
        now + PRICE_CHANGE_NOTICE_SECONDS <= i64::MAX,
        at >= now + PRICE_CHANGE_NOTICE_SECONDS,
    ensures
        accounts.repriced(new_amount, now).price_at(at) == Ok::<u64, SubscriptionError>(
            new_amount,
        ),
{
}

/// The schedule fits whenever one more period after `now` fits: if neither
/// `now` nor the time elapsed since `due`, plus one period, leaves the `i64`
/// range, the next due date exists.
pub proof fn lemma_next_due_date_fits(due: i64, period: i64, now: i64)
    requires
        period > 0,
        now >= due,
        now - due + period <= i64::MAX,
        now + period <= i64::MAX,
    ensures
        next_due_date(due, period, now) is Some,
{
    let elapsed = now - due;
    let p = period as int;
    let q = elapsed / p;
    lemma_fundamental_div_mod(elapsed, p);
    assert((q + 1) * p == q * p + p) by (nonlinear_arith);
    assert(q + 1 <= (q + 1) * p) by (nonlinear_arith)
        requires
            p >= 1,
            q >= 0,
    ;
}

/// A due charge within the subscriber's bounds is owed: when the merchant
/// account is the plan's, the plan is active, the period has fallen due, the
/// price in force at the due date is within the cap, the remaining allowance
/// and the delegation this program holds, and one more period still fits in
/// an `i64`, the charge bills exactly that price, takes it off the allowance
/// and the pool, moves the due date past `now` by whole periods, and changes
/// nothing else.
pub proof fn a_charge_within_bounds_is_billed(accounts: Charge, now: i64, amount: u64)
    requires
        accounts.plan.is_well_formed(),
        accounts.merchant_token_account.owner == accounts.plan.merchant,
        accounts.merchant_token_account.mint == accounts.plan.mint,
        accounts.plan.is_active,
        now >= accounts.subscription.next_charge_at,
        accounts.plan.price_at(accounts.subscription.next_charge_at) == Ok::<u64, SubscriptionError>(
            amount,
        ),
        amount <= accounts.subscription.max_amount_per_period,
        amount <= accounts.subscription.allowance_remaining,
        accounts.subscriber_token_account.delegate == Some(accounts.delegate_authority),
        amount <= accounts.subscriber_token_account.delegated_amount,
        now - accounts.subscription.next_charge_at + accounts.plan.period_seconds <= i64::MAX,
        now + accounts.plan.period_seconds <= i64::MAX,
    ensures
        ({
            let (result, after) = accounts.outcome(now);
            let due = accounts.subscription.next_charge_at;
            let period = accounts.plan.period_seconds;
            let committed = accounts.subscriber_delegation.committed_total;
            &&& result == Ok::<u64, SubscriptionError>(amount)
            &&& after.subscription.allowance_remaining + amount
                == accounts.subscription.allowance_remaining
            &&& committed >= amount ==> after.subscriber_delegation.committed_total + amount
                == committed
            &&& committed < amount ==> after.subscriber_delegation.committed_total == 0
            &&& now < after.subscription.next_charge_at <= now + period
            &&& (after.subscription.next_charge_at - due) % (period as int) == 0
            &&& after.plan == accounts.plan
            &&& after.subscriber_token_account == accounts.subscriber_token_account
            &&& after.merchant_token_account == accounts.merchant_token_account
            &&& after.delegate_authority == accounts.delegate_authority
            &&& after.subscription.plan == accounts.subscription.plan
            &&& after.subscription.subscriber == accounts.subscription.subscriber
            &&& after.subscription.max_amount_per_period
                == accounts.subscription.max_amount_per_period
            &&& after.subscription.bump == accounts.subscription.bump
            &&& after.subscriber_delegation.subscriber == accounts.subscriber_delegation.subscriber
            &&& after.subscriber_delegation.mint == accounts.subscriber_delegation.mint
            &&& after.subscriber_delegation.bump == accounts.subscriber_delegation.bump
        }),
{
    let due = accounts.subscription.next_charge_at;
    let period = accounts.plan.period_seconds;
    lemma_next_due_date_fits(due, period, now);
    lemma_next_due_date(due, period, now);
}

/// A successful charge had every reason to succeed: the merchant account is
/// the plan's, the plan is active, the period had fallen due, the amount is the
/// price in force at the due date and is within the cap, the remaining
/// allowance and the delegation this program holds.
pub proof fn a_billed_charge_was_within_bounds(accounts: Charge, now: i64)
    requires
        accounts.outcome(now).0 is Ok,
    ensures
        ({
            let amount = accounts.outcome(now).0->Ok_0;
            &&& accounts.merchant_token_account.owner == accounts.plan.merchant
            &&& accounts.merchant_token_account.mint == accounts.plan.mint
            &&& accounts.plan.is_active
            &&& now >= accounts.subscription.next_charge_at
            &&& accounts.plan.price_at(accounts.subscription.next_charge_at) == Ok::<
                u64,
                SubscriptionError,
            >(amount)
            &&& amount <= accounts.subscription.max_amount_per_period
            &&& amount <= accounts.subscription.allowance_remaining
            &&& accounts.subscriber_token_account.delegate == Some(accounts.delegate_authority)
            &&& amount <= accounts.subscriber_token_account.delegated_amount
        }),
{
}

/// Every refused charge names a condition that really failed, and leaves
/// every account as it was.
pub proof fn a_refused_charge_names_its_reason(accounts: Charge, now: i64)
    requires
        accounts.outcome(now).0 is Err,
    ensures
        ({
            let (result, after) = accounts.outcome(now);
            let due = accounts.subscription.next_charge_at;
            let price = accounts.plan.price_at(due);
            &&& after == accounts
            &&& result == Err::<u64, SubscriptionError>(SubscriptionError::WrongMerchantAccount)
                ==> accounts.merchant_token_account.owner != accounts.plan.merchant
            &&& result == Err::<u64, SubscriptionError>(SubscriptionError::WrongMint)
                ==> accounts.merchant_token_account.mint != accounts.plan.mint
            &&& result == Err::<u64, SubscriptionError>(SubscriptionError::PlanInactive)
                ==> !accounts.plan.is_active
            &&& result == Err::<u64, SubscriptionError>(SubscriptionError::PeriodNotElapsed)
                ==> now < due
            &&& result == Err::<u64, SubscriptionError>(
                SubscriptionError::PriceHistoryUnavailable,
            ) ==> price is Err
            &&& result == Err::<u64, SubscriptionError>(
                SubscriptionError::PriceAboveSubscriberMax,
            ) ==> (price matches Ok(amount) && amount
                > accounts.subscription.max_amount_per_period)
            &&& result == Err::<u64, SubscriptionError>(SubscriptionError::AllowanceExhausted)
                ==> (price matches Ok(amount) && amount
                > accounts.subscription.allowance_remaining)
            &&& result == Err::<u64, SubscriptionError>(SubscriptionError::DelegateRevoked) ==> (
            price matches Ok(amount) && (accounts.subscriber_token_account.delegate != Some(
                accounts.delegate_authority,
            ) || amount > accounts.subscriber_token_account.delegated_amount))
            &&& result == Err::<u64, SubscriptionError>(SubscriptionError::ScheduleOverflow)
                ==> now >= due && next_due_date(due, accounts.plan.period_seconds, now) is None
        }),
{
}

/// A schedule that cannot move is refused only when one more period after the
/// charge really leaves the `i64` range.
pub proof fn a_schedule_overflow_is_real(accounts: Charge, now: i64)
    requires
        accounts.plan.is_well_formed(),
        accounts.outcome(now).0 == Err::<u64, SubscriptionError>(
            SubscriptionError::ScheduleOverflow,
        ),
    ensures
        now - accounts.subscription.next_charge_at + accounts.plan.period_seconds > i64::MAX
            || now + accounts.plan.period_seconds > i64::MAX,
{
    if now - accounts.subscription.next_charge_at + accounts.plan.period_seconds <= i64::MAX
        && now + accounts.plan.period_seconds <= i64::MAX {
        lemma_next_due_date_fits(
            accounts.subscription.next_charge_at,
            accounts.plan.period_seconds,
            now,
        );
    }
}

/// An announcement keeps the price history it does not replace: at every
/// instant up to the announcement that the plan could already answer for,
/// either because a pending announcement is being superseded or because the
/// instant falls in the current interval, the repriced plan gives the same
/// answer. In particular an uncranked period that fell due before a
/// superseding announcement is still billed what it was.
pub proof fn a_price_change_keeps_the_history_it_does_not_replace(
    accounts: UpdatePrice,
    new_amount: u64,
    now: i64,
    at: i64,
)
    requires
        now + PRICE_CHANGE_NOTICE_SECONDS <= i64::MAX,
        at <= now,
        accounts.plan.price_at(at) is Ok,
        now < accounts.plan.amount_effective_at || at >= accounts.plan.amount_effective_at,
    ensures
        accounts.repriced(new_amount, now).price_at(at) == accounts.plan.price_at(at),
{
}

/// What an announcement records: the new amount from `now` plus the notice;
/// a superseded announcement leaves the previous interval as it was, and a
/// matured one becomes the previous interval; nothing but the price changes.
pub proof fn a_price_change_records_the_intervals(
    accounts: UpdatePrice,
    new_amount: u64,
    now: i64,
)
    requires
        now + PRICE_CHANGE_NOTICE_SECONDS <= i64::MAX,
    ensures
        ({
            let plan = accounts.plan;
            let after = accounts.repriced(new_amount, now);
            &&& after.amount_per_period == new_amount
            &&& after.amount_effective_at == now + PRICE_CHANGE_NOTICE_SECONDS
            &&& now < plan.amount_effective_at ==> after.previous_amount == plan.previous_amount
                && after.previous_effective_at == plan.previous_effective_at
            &&& now >= plan.amount_effective_at ==> after.previous_amount
                == plan.amount_per_period && after.previous_effective_at
                == plan.amount_effective_at
            &&& after.merchant == plan.merchant
            &&& after.mint == plan.mint
            &&& after.plan_id == plan.plan_id
            &&& after.period_seconds == plan.period_seconds
            &&& after.price_mode == plan.price_mode
            &&& after.is_active == plan.is_active
            &&& after.bump == plan.bump
        }),
{
}

/// Changing an allowance never overrides another program's delegation: a
/// non-zero allowance change on an account delegated elsewhere is refused with
/// `ForeignDelegate` and changes nothing.
pub proof fn setting_the_allowance_never_overrides_a_foreign_delegate(
    accounts: SetAllowance,
    new_allowance: u64,
)
    requires
        new_allowance > 0,
        accounts.subscriber_token_account.is_foreign(accounts.delegate_authority),
    ensures
        accounts.outcome(new_allowance).0 == Err::<u64, SubscriptionError>(
            SubscriptionError::ForeignDelegate,
        ),
        accounts.outcome(new_allowance).1 == accounts,
{
}

/// A successful allowance change was allowed, sets the allowance, moves the
/// pool by the same difference (stopping at zero on the way down), returns the
/// new pool for approval, and changes nothing else; a refused one changes
/// nothing and names a condition that really failed.
pub proof fn setting_the_allowance_moves_the_pool_by_the_difference(
    accounts: SetAllowance,
    new_allowance: u64,
)
    ensures
        ({
            let (result, after) = accounts.outcome(new_allowance);
            let previous = accounts.subscription.allowance_remaining;
            let committed = accounts.subscriber_delegation.committed_total;
            let total = after.subscriber_delegation.committed_total;
            &&& result is Ok ==> {
                &&& new_allowance > 0
                &&& !accounts.subscriber_token_account.is_foreign(accounts.delegate_authority)
                &&& result == Ok::<u64, SubscriptionError>(total)
                &&& after.subscription == (Subscription {
                    allowance_remaining: new_allowance,
                    ..accounts.subscription
                })
                &&& after.subscriber_delegation == (SubscriberDelegation {
                    committed_total: total,
                    ..accounts.subscriber_delegation
                })
                &&& after.subscriber_token_account == accounts.subscriber_token_account
                &&& after.delegate_authority == accounts.delegate_authority
                &&& (total + previous == committed + new_allowance || (total == 0 && committed
                    + new_allowance < previous))
            }
            &&& result is Err ==> after == accounts
            &&& result == Err::<u64, SubscriptionError>(SubscriptionError::InvalidAllowance)
                ==> new_allowance == 0
            &&& result == Err::<u64, SubscriptionError>(SubscriptionError::ForeignDelegate)
                ==> accounts.subscriber_token_account.is_foreign(accounts.delegate_authority)
            &&& result == Err::<u64, SubscriptionError>(SubscriptionError::AllowanceOverflow)
                ==> committed + new_allowance - previous > u64::MAX
            &&& (new_allowance > 0 && !accounts.subscriber_token_account.is_foreign(
                accounts.delegate_authority,
            ) && committed + new_allowance - previous <= u64::MAX) ==> result is Ok
        }),
{
}

/// A successful subscription records exactly the terms it was opened with:
/// the plan's address, the subscriber, a first charge due at `now`, the
/// allowance, the cap and the subscription's own bump; the pool is the
/// subscriber's on the plan's mint, grows by the allowance and keeps the
/// pool's own bump; the returned total is the new pool.
pub proof fn a_subscription_records_its_terms(
    accounts: Subscribe,
    allowance: u64,
    max_amount_per_period: u64,
    now: i64,
    subscription_bump: u8,
    delegation_bump: u8,
)
    requires
        accounts.outcome(allowance, max_amount_per_period, now, subscription_bump, delegation_bump).0 is Ok,
    ensures
        ({
            let (result, after) = accounts.outcome(
                allowance,
                max_amount_per_period,
                now,
                subscription_bump,
                delegation_bump,
            );
            &&& after.subscription == (Subscription {
                plan: accounts.plan_address,
                subscriber: accounts.subscriber,
                next_charge_at: now,
                allowance_remaining: allowance,
                max_amount_per_period: max_amount_per_period,
                bump: subscription_bump,
            })
            &&& after.subscriber_delegation.subscriber == accounts.subscriber
            &&& after.subscriber_delegation.mint == accounts.plan.mint
            &&& after.subscriber_delegation.committed_total
                == accounts.subscriber_delegation.committed_total + allowance
            &&& after.subscriber_delegation.bump == delegation_bump
            &&& result == Ok::<u64, SubscriptionError>(
                after.subscriber_delegation.committed_total,
            )
            &&& after.plan == accounts.plan
            &&& after.plan_address == accounts.plan_address
            &&& after.subscriber == accounts.subscriber
            &&& after.subscriber_token_account == accounts.subscriber_token_account
            &&& after.delegate_authority == accounts.delegate_authority
            &&& allowance > 0
            &&& max_amount_per_period > 0
            &&& accounts.plan.is_active
            &&& accounts.plan.amount_per_period <= max_amount_per_period
            &&& !accounts.subscriber_token_account.is_foreign(accounts.delegate_authority)
        }),
{
}

/// A subscription within its terms is opened, and a refused one changes
/// nothing and names a condition that really failed; in particular another
/// program's delegation is never overridden.
pub proof fn a_subscription_within_its_terms_is_opened(
    accounts: Subscribe,
    allowance: u64,
    max_amount_per_period: u64,
    now: i64,
    subscription_bump: u8,
    delegation_bump: u8,
)
    ensures
        ({
            let (result, after) = accounts.outcome(
                allowance,
                max_amount_per_period,
                now,
                subscription_bump,
                delegation_bump,
            );
            let committed = accounts.subscriber_delegation.committed_total;
            let foreign = accounts.subscriber_token_account.is_foreign(
                accounts.delegate_authority,
            );
            &&& (allowance > 0 && max_amount_per_period > 0 && accounts.plan.is_active
                && accounts.plan.amount_per_period <= max_amount_per_period && !foreign
                && committed + allowance <= u64::MAX) ==> result is Ok
            &&& result is Err ==> after == accounts
            &&& result == Err::<u64, SubscriptionError>(SubscriptionError::InvalidAllowance)
                ==> allowance == 0
            &&& result == Err::<u64, SubscriptionError>(SubscriptionError::InvalidMaxAmount)
                ==> max_amount_per_period == 0
            &&& result == Err::<u64, SubscriptionError>(SubscriptionError::PlanInactive)
                ==> !accounts.plan.is_active
            &&& result == Err::<u64, SubscriptionError>(
                SubscriptionError::PriceAboveSubscriberMax,
            ) ==> accounts.plan.amount_per_period > max_amount_per_period
            &&& result == Err::<u64, SubscriptionError>(SubscriptionError::ForeignDelegate)
                ==> foreign
            &&& result == Err::<u64, SubscriptionError>(SubscriptionError::AllowanceOverflow)
                ==> committed + allowance > u64::MAX
            &&& (allowance > 0 && max_amount_per_period > 0 && accounts.plan.is_active
                && accounts.plan.amount_per_period <= max_amount_per_period && foreign)
                ==> result == Err::<u64, SubscriptionError>(SubscriptionError::ForeignDelegate)
        }),
{
}

/// Cancelling takes exactly the cancelled allowance out of the pool, or empties
/// a pool that held less.
pub proof fn cancelling_takes_the_allowance_out_of_the_pool(accounts: Cancel)
    ensures
        ({
            let committed = accounts.subscriber_delegation.committed_total;
            let allowance = accounts.subscription.allowance_remaining;
            let remaining = accounts.remaining_commitment();
            &&& remaining <= committed
            &&& committed >= allowance ==> remaining + allowance == committed
            &&& committed < allowance ==> remaining == 0
        }),
{
}

/// A published plan carries exactly the terms it was published with, is
/// active, and is well formed whenever its price and period are positive.
pub proof fn a_published_plan_carries_its_terms(
    accounts: CreatePlan,
    plan_id: u64,
    amount_per_period: u64,
    period_seconds: i64,
    price_mode: PriceMode,
    bump: u8,
)
    ensures
        ({
            let plan = accounts.published(
                plan_id,
                amount_per_period,
                period_seconds,
                price_mode,
                bump,
            );
            &&& plan.merchant == accounts.merchant
            &&& plan.mint == accounts.mint
            &&& plan.plan_id == plan_id
            &&& plan.amount_per_period == amount_per_period
            &&& plan.period_seconds == period_seconds
            &&& plan.price_mode == price_mode
            &&& plan.is_active
            &&& plan.bump == bump
            &&& (amount_per_period > 0 && period_seconds > 0) ==> plan.is_well_formed()
        }),
{
}

/// The price in force at an instant is that of the latest recorded interval
/// begun by then: the current amount from its effective date on, the previous
/// amount between the two dates, and no answer before both.
pub proof fn the_price_in_force_is_the_latest_interval_begun(plan: Plan, at: i64)
    ensures
        at >= plan.amount_effective_at ==> plan.price_at(at) == Ok::<u64, SubscriptionError>(
            plan.amount_per_period,
        ),
        plan.previous_effective_at <= at < plan.amount_effective_at ==> plan.price_at(at)
            == Ok::<u64, SubscriptionError>(plan.previous_amount),
        at < plan.previous_effective_at && at < plan.amount_effective_at ==> plan.price_at(at)
            == Err::<u64, SubscriptionError>(SubscriptionError::PriceHistoryUnavailable),
{
}

/// Who holds a token account's delegation: it is held by `delegate` exactly
/// when the account names it, foreign exactly when it names someone else, and
/// never both.
pub proof fn a_delegation_is_held_or_foreign_or_absent(account: TokenAccount, delegate: Pubkey)
    ensures
        account.delegates_to(delegate) <==> account.delegate == Some(delegate),
        account.is_foreign(delegate) <==> (account.delegate is Some && account.delegate != Some(
            delegate,
        )),
        !(account.delegates_to(delegate) && account.is_foreign(delegate)),
        account.delegate is None ==> !account.delegates_to(delegate) && !account.is_foreign(
            delegate,
        ),
{
}

} // verus!
