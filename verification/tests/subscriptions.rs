#![allow(dead_code)]

use std::collections::BTreeMap;

use anchor_lang::prelude::Pubkey;
use subscriptions::{
    Cancel, Charge, CreatePlan, Plan, PriceMode, Reauthorize, SetAllowance, SetMaxAmount,
    SetPlanActive, Subscribe, SubscriberDelegation, Subscription, SubscriptionError,
    TokenAccount, UpdatePrice,
};

#[derive(Debug, Clone, Copy, PartialEq, Eq)]
enum Failure {
    Program(SubscriptionError),
    Token,
    Account,
}

#[derive(Debug, Clone, Copy)]
struct Tokens {
    amount: u64,
    delegate: Option<Pubkey>,
    delegated_amount: u64,
}

#[derive(Clone)]
struct World {
    clock: i64,
    delegate_authority: Pubkey,
    plans: BTreeMap<Pubkey, Plan>,
    subscriptions: BTreeMap<(Pubkey, Pubkey), Subscription>,
    delegations: BTreeMap<(Pubkey, Pubkey), SubscriberDelegation>,
    accounts: BTreeMap<(Pubkey, Pubkey), Tokens>,
}

fn blank_plan() -> Plan {
    Plan {
        merchant: Pubkey::default(),
        mint: Pubkey::default(),
        plan_id: 0,
        amount_per_period: 0,
        amount_effective_at: 0,
        previous_amount: 0,
        previous_effective_at: 0,
        period_seconds: 0,
        price_mode: PriceMode::Fixed,
        is_active: false,
        bump: 0,
    }
}

fn blank_subscription() -> Subscription {
    Subscription {
        plan: Pubkey::default(),
        subscriber: Pubkey::default(),
        next_charge_at: 0,
        allowance_remaining: 0,
        max_amount_per_period: 0,
        bump: 0,
    }
}

fn blank_delegation() -> SubscriberDelegation {
    SubscriberDelegation {
        subscriber: Pubkey::default(),
        mint: Pubkey::default(),
        committed_total: 0,
        bump: 0,
    }
}

impl World {
    fn new() -> Self {
        World {
            clock: 1_700_000_000,
            delegate_authority: Pubkey::new_unique(),
            plans: BTreeMap::new(),
            subscriptions: BTreeMap::new(),
            delegations: BTreeMap::new(),
            accounts: BTreeMap::new(),
        }
    }

    fn transaction(&mut self, steps: impl FnOnce(&mut World) -> Result<(), Failure>) -> Result<(), Failure> {
        let mut draft = self.clone();
        steps(&mut draft)?;
        *self = draft;
        Ok(())
    }

    fn advance_clock(&mut self, seconds: i64) {
        self.clock += seconds;
    }

    fn create_account(&mut self, owner: Pubkey, mint: Pubkey, amount: u64) {
        self.accounts.insert(
            (owner, mint),
            Tokens { amount, delegate: None, delegated_amount: 0 },
        );
    }

    fn token_account(&self, owner: Pubkey, mint: Pubkey) -> Tokens {
        self.accounts[&(owner, mint)]
    }

    fn balance(&self, owner: Pubkey, mint: Pubkey) -> u64 {
        self.token_account(owner, mint).amount
    }

    fn delegated(&self, owner: Pubkey, mint: Pubkey) -> u64 {
        self.token_account(owner, mint).delegated_amount
    }

    fn committed(&self, subscriber: Pubkey, mint: Pubkey) -> u64 {
        self.delegations[&(subscriber, mint)].committed_total
    }

    fn approve(&mut self, owner: Pubkey, mint: Pubkey, delegate: Pubkey, amount: u64) {
        let account = self.accounts.get_mut(&(owner, mint)).unwrap();
        account.delegate = Some(delegate);
        account.delegated_amount = amount;
    }

    fn revoke(&mut self, owner: Pubkey, mint: Pubkey) {
        let account = self.accounts.get_mut(&(owner, mint)).unwrap();
        account.delegate = None;
        account.delegated_amount = 0;
    }

    fn view(&self, owner: Pubkey, mint: Pubkey) -> Result<TokenAccount, Failure> {
        let account = self.accounts.get(&(owner, mint)).ok_or(Failure::Account)?;
        Ok(TokenAccount {
            mint,
            owner,
            delegate: account.delegate,
            delegated_amount: account.delegated_amount,
        })
    }

    fn create_plan(
        &mut self,
        merchant: Pubkey,
        mint: Pubkey,
        plan_id: u64,
        amount: u64,
        period: i64,
        mode: PriceMode,
    ) -> Result<Pubkey, Failure> {
        let mut accounts = CreatePlan { merchant, mint, plan: blank_plan() };
        accounts.run(plan_id, amount, period, mode, 255).map_err(Failure::Program)?;
        let address = Pubkey::new_unique();
        self.plans.insert(address, accounts.plan);
        Ok(address)
    }

    fn set_plan_active(&mut self, plan: Pubkey, is_active: bool) -> Result<(), Failure> {
        let mut accounts = SetPlanActive { plan: self.plans[&plan] };
        accounts.run(is_active).map_err(Failure::Program)?;
        self.plans.insert(plan, accounts.plan);
        Ok(())
    }

    fn update_price(&mut self, plan: Pubkey, new_amount: u64) -> Result<(), Failure> {
        let mut accounts = UpdatePrice { plan_address: plan, plan: self.plans[&plan] };
        accounts.run(new_amount, self.clock).map_err(Failure::Program)?;
        self.plans.insert(plan, accounts.plan);
        Ok(())
    }

    fn subscribe(
        &mut self,
        subscriber: Pubkey,
        plan: Pubkey,
        allowance: u64,
        max_amount_per_period: u64,
    ) -> Result<(), Failure> {
        if self.subscriptions.contains_key(&(plan, subscriber)) {
            return Err(Failure::Account);
        }
        let plan_state = self.plans[&plan];
        let mint = plan_state.mint;
        let mut accounts = Subscribe {
            subscriber,
            plan_address: plan,
            plan: plan_state,
            subscription: blank_subscription(),
            subscriber_delegation: self
                .delegations
                .get(&(subscriber, mint))
                .copied()
                .unwrap_or_else(blank_delegation),
            subscriber_token_account: self.view(subscriber, mint)?,
            delegate_authority: self.delegate_authority,
        };
        let total = accounts
            .run(allowance, max_amount_per_period, self.clock, 254, 253)
            .map_err(Failure::Program)?;
        self.approve(subscriber, mint, self.delegate_authority, total);
        self.subscriptions.insert((plan, subscriber), accounts.subscription);
        self.delegations.insert((subscriber, mint), accounts.subscriber_delegation);
        Ok(())
    }

    fn charge_into(&mut self, plan: Pubkey, subscriber: Pubkey, merchant_account: (Pubkey, Pubkey)) -> Result<(), Failure> {
        let plan_state = self.plans[&plan];
        let mint = plan_state.mint;
        let mut accounts = Charge {
            plan: plan_state,
            subscription: self.subscriptions[&(plan, subscriber)],
            subscriber_delegation: self.delegations[&(subscriber, mint)],
            subscriber_token_account: self.view(subscriber, mint)?,
            merchant_token_account: self.view(merchant_account.0, merchant_account.1)?,
            delegate_authority: self.delegate_authority,
        };
        let amount = accounts.run(self.clock).map_err(Failure::Program)?;
        let mut source = self.token_account(subscriber, mint);
        if source.delegate != Some(self.delegate_authority)
            || source.delegated_amount < amount
            || source.amount < amount
        {
            return Err(Failure::Token);
        }
        source.amount -= amount;
        source.delegated_amount -= amount;
        if source.delegated_amount == 0 {
            source.delegate = None;
        }
        self.accounts.insert((subscriber, mint), source);
        self.accounts.get_mut(&merchant_account).unwrap().amount += amount;
        self.subscriptions.insert((plan, subscriber), accounts.subscription);
        self.delegations.insert((subscriber, mint), accounts.subscriber_delegation);
        Ok(())
    }

    fn charge(&mut self, plan: Pubkey, subscriber: Pubkey) -> Result<(), Failure> {
        let plan_state = self.plans[&plan];
        self.charge_into(plan, subscriber, (plan_state.merchant, plan_state.mint))
    }

    fn cancel(&mut self, plan: Pubkey, subscriber: Pubkey) -> Result<(), Failure> {
        let mint = self.plans[&plan].mint;
        let mut accounts = Cancel {
            subscription: self.subscriptions[&(plan, subscriber)],
            subscriber_delegation: self.delegations[&(subscriber, mint)],
            subscriber_token_account: self.view(subscriber, mint)?,
            delegate_authority: self.delegate_authority,
        };
        if let Some(total) = accounts.run() {
            self.approve(subscriber, mint, self.delegate_authority, total);
        }
        self.subscriptions.remove(&(plan, subscriber));
        self.delegations.insert((subscriber, mint), accounts.subscriber_delegation);
        Ok(())
    }

    fn set_max_amount(&mut self, plan: Pubkey, subscriber: Pubkey, new_max: u64) -> Result<(), Failure> {
        let mut accounts = SetMaxAmount { subscription: self.subscriptions[&(plan, subscriber)] };
        accounts.run(new_max).map_err(Failure::Program)?;
        self.subscriptions.insert((plan, subscriber), accounts.subscription);
        Ok(())
    }

    fn set_allowance(&mut self, plan: Pubkey, subscriber: Pubkey, new_allowance: u64) -> Result<(), Failure> {
        let mint = self.plans[&plan].mint;
        let mut accounts = SetAllowance {
            subscription: self.subscriptions[&(plan, subscriber)],
            subscriber_delegation: self.delegations[&(subscriber, mint)],
            subscriber_token_account: self.view(subscriber, mint)?,
            delegate_authority: self.delegate_authority,
        };
        let total = accounts.run(new_allowance).map_err(Failure::Program)?;
        self.approve(subscriber, mint, self.delegate_authority, total);
        self.subscriptions.insert((plan, subscriber), accounts.subscription);
        self.delegations.insert((subscriber, mint), accounts.subscriber_delegation);
        Ok(())
    }

    fn reauthorize(&mut self, subscriber: Pubkey, mint: Pubkey) -> Result<(), Failure> {
        let accounts = Reauthorize {
            subscriber_delegation: self.delegations[&(subscriber, mint)],
            subscriber_token_account: self.view(subscriber, mint)?,
            delegate_authority: self.delegate_authority,
        };
        let total = accounts.run().map_err(Failure::Program)?;
        self.approve(subscriber, mint, self.delegate_authority, total);
        Ok(())
    }
}

fn assert_error(result: Result<(), Failure>, expected: SubscriptionError) {
    assert_eq!(result, Err(Failure::Program(expected)));
}

const AMOUNT: u64 = 10_000_000;
const PERIOD: i64 = 30 * 24 * 60 * 60;
const ALLOWANCE: u64 = AMOUNT * 12;
const FUNDING: u64 = AMOUNT * 100;

struct Fixture {
    world: World,
    merchant: Pubkey,
    subscriber: Pubkey,
    mint: Pubkey,
    plan: Pubkey,
}

impl Fixture {
    fn new() -> Self {
        Self::with_amount(AMOUNT)
    }

    fn with_amount(amount: u64) -> Self {
        let mut world = World::new();
        let merchant = Pubkey::new_unique();
        let subscriber = Pubkey::new_unique();
        let mint = Pubkey::new_unique();
        world.create_account(subscriber, mint, FUNDING);
        world.create_account(merchant, mint, 0);
        let plan = world
            .create_plan(merchant, mint, 1, amount, PERIOD, PriceMode::Fixed)
            .unwrap();
        Fixture { world, merchant, subscriber, mint, plan }
    }

    fn subscribe(&mut self, allowance: u64) -> Result<(), Failure> {
        self.subscribe_capped(allowance, u64::MAX)
    }

    fn subscribe_capped(&mut self, allowance: u64, max_amount_per_period: u64) -> Result<(), Failure> {
        self.world.subscribe(self.subscriber, self.plan, allowance, max_amount_per_period)
    }

    fn charge(&mut self) -> Result<(), Failure> {
        self.world.charge(self.plan, self.subscriber)
    }

    fn cancel(&mut self) -> Result<(), Failure> {
        self.world.cancel(self.plan, self.subscriber)
    }

    fn subscription(&self) -> Subscription {
        self.world.subscriptions[&(self.plan, self.subscriber)]
    }

    fn second_plan(&mut self) -> (Pubkey, Pubkey) {
        let other_merchant = Pubkey::new_unique();
        self.world.create_account(other_merchant, self.mint, 0);
        let other_plan = self
            .world
            .create_plan(other_merchant, self.mint, 1, AMOUNT, PERIOD, PriceMode::Fixed)
            .unwrap();
        (other_merchant, other_plan)
    }
}

// Happy path

#[test]
fn subscribe_records_the_subscription_and_grants_the_delegation() {
    let mut fixture = Fixture::new();
    fixture.subscribe(ALLOWANCE).unwrap();

    let subscription = fixture.subscription();
    assert_eq!(subscription.plan, fixture.plan);
    assert_eq!(subscription.subscriber, fixture.subscriber);
    assert_eq!(subscription.allowance_remaining, ALLOWANCE);

    let token_account = fixture.world.token_account(fixture.subscriber, fixture.mint);
    assert_eq!(token_account.delegate.unwrap(), fixture.world.delegate_authority);
    assert_eq!(token_account.delegated_amount, ALLOWANCE);
}

#[test]
fn the_first_charge_is_due_immediately_and_moves_exactly_the_plan_amount() {
    let mut fixture = Fixture::new();
    fixture.subscribe(ALLOWANCE).unwrap();

    let before = fixture.world.balance(fixture.subscriber, fixture.mint);
    fixture.charge().unwrap();

    assert_eq!(fixture.world.balance(fixture.merchant, fixture.mint), AMOUNT);
    assert_eq!(fixture.world.balance(fixture.subscriber, fixture.mint), before - AMOUNT);
    assert_eq!(fixture.subscription().allowance_remaining, ALLOWANCE - AMOUNT);
}

#[test]
fn the_schedule_advances_from_the_due_date_not_the_charge_time() {
    let mut fixture = Fixture::new();
    fixture.subscribe(ALLOWANCE).unwrap();
    fixture.charge().unwrap();

    let after_first = fixture.subscription().next_charge_at;

    fixture.world.advance_clock(PERIOD + 60);
    fixture.charge().unwrap();

    assert_eq!(fixture.subscription().next_charge_at, after_first + PERIOD);
}

#[test]
fn a_cancelled_subscriber_can_subscribe_to_the_same_plan_again() {
    let mut fixture = Fixture::new();
    fixture.subscribe(ALLOWANCE).unwrap();
    fixture.cancel().unwrap();

    fixture.subscribe(ALLOWANCE).unwrap();

    assert!(fixture.world.subscriptions.contains_key(&(fixture.plan, fixture.subscriber)));
}

// Schedule

#[test]
fn charging_before_the_period_elapses_fails_and_moves_nothing() {
    let mut fixture = Fixture::new();
    fixture.subscribe(ALLOWANCE).unwrap();
    fixture.charge().unwrap();

    let before = fixture.world.balance(fixture.merchant, fixture.mint);
    let result = fixture.charge();

    assert_error(result, SubscriptionError::PeriodNotElapsed);
    assert_eq!(fixture.world.balance(fixture.merchant, fixture.mint), before);
}

#[test]
fn a_backlog_collapses_to_exactly_one_charge() {
    let mut fixture = Fixture::new();
    fixture.subscribe(ALLOWANCE).unwrap();
    fixture.charge().unwrap();

    let before = fixture.world.balance(fixture.merchant, fixture.mint);
    fixture.world.advance_clock(PERIOD * 3);
    fixture.charge().unwrap();

    assert_eq!(fixture.world.balance(fixture.merchant, fixture.mint), before + AMOUNT);

    let subscription = fixture.subscription();
    let now = fixture.world.clock;
    assert!(subscription.next_charge_at > now);
    assert!(subscription.next_charge_at <= now + PERIOD);
}

#[test]
fn two_charges_in_one_transaction_take_only_one_payment() {
    let mut fixture = Fixture::new();
    fixture.subscribe(ALLOWANCE).unwrap();
    fixture.charge().unwrap();
    fixture.world.advance_clock(PERIOD * 3);

    let (plan, subscriber) = (fixture.plan, fixture.subscriber);
    let result = fixture.world.transaction(|world| {
        world.charge(plan, subscriber)?;
        world.charge(plan, subscriber)
    });

    assert_error(result, SubscriptionError::PeriodNotElapsed);
    assert_eq!(fixture.world.balance(fixture.merchant, fixture.mint), AMOUNT);
}

#[test]
fn a_long_backlog_does_not_drift_the_billing_anniversary() {
    let mut fixture = Fixture::new();
    fixture.subscribe(ALLOWANCE).unwrap();
    fixture.charge().unwrap();

    let anchor_point = fixture.subscription().next_charge_at;

    fixture.world.advance_clock(PERIOD * 10 + 12345);
    fixture.charge().unwrap();

    let next = fixture.subscription().next_charge_at;
    assert_eq!((next - anchor_point) % PERIOD, 0);
}

// Delegation

#[test]
fn a_second_subscription_adds_to_the_delegation_and_both_charge() {
    let mut fixture = Fixture::new();
    fixture.subscribe(ALLOWANCE).unwrap();

    let (other_merchant, other_plan) = fixture.second_plan();
    fixture
        .world
        .subscribe(fixture.subscriber, other_plan, ALLOWANCE, u64::MAX)
        .unwrap();

    assert_eq!(fixture.world.delegated(fixture.subscriber, fixture.mint), ALLOWANCE * 2);

    fixture.charge().unwrap();
    fixture.world.charge(other_plan, fixture.subscriber).unwrap();

    assert_eq!(fixture.world.balance(fixture.merchant, fixture.mint), AMOUNT);
    assert_eq!(fixture.world.balance(other_merchant, fixture.mint), AMOUNT);
}

#[test]
fn a_delegation_that_would_overflow_is_rejected() {
    let mut fixture = Fixture::new();
    fixture.subscribe(u64::MAX).unwrap();

    let (_, other_plan) = fixture.second_plan();
    let result = fixture.world.subscribe(fixture.subscriber, other_plan, 1, u64::MAX);

    assert_error(result, SubscriptionError::AllowanceOverflow);
}

#[test]
fn subscribe_refuses_to_overwrite_a_foreign_delegation() {
    let mut fixture = Fixture::new();
    let stranger = Pubkey::new_unique();

    fixture.world.approve(fixture.subscriber, fixture.mint, stranger, 500);

    let result = fixture.subscribe(ALLOWANCE);

    assert_error(result, SubscriptionError::ForeignDelegate);
    assert_eq!(
        fixture.world.token_account(fixture.subscriber, fixture.mint).delegate.unwrap(),
        stranger
    );
}

#[test]
fn a_revoked_delegation_stops_charging() {
    let mut fixture = Fixture::new();
    fixture.subscribe(ALLOWANCE).unwrap();
    fixture.world.revoke(fixture.subscriber, fixture.mint);

    let result = fixture.charge();

    assert_error(result, SubscriptionError::DelegateRevoked);
}

#[test]
fn cancel_then_subscribe_restores_charging_after_a_revoke() {
    let mut fixture = Fixture::new();
    fixture.subscribe(ALLOWANCE).unwrap();
    fixture.world.revoke(fixture.subscriber, fixture.mint);

    fixture.cancel().unwrap();
    fixture.subscribe(ALLOWANCE).unwrap();

    fixture.charge().unwrap();
    assert_eq!(fixture.world.balance(fixture.merchant, fixture.mint), AMOUNT);
}

#[test]
fn the_pool_is_drawn_first_come_first_served() {
    let mut fixture = Fixture::new();
    fixture.subscribe(ALLOWANCE).unwrap();

    let (_, other_plan) = fixture.second_plan();
    fixture
        .world
        .subscribe(fixture.subscriber, other_plan, ALLOWANCE, u64::MAX)
        .unwrap();

    let delegate = fixture.world.delegate_authority;
    fixture.world.approve(fixture.subscriber, fixture.mint, delegate, AMOUNT);

    fixture.charge().unwrap();

    let result = fixture.world.charge(other_plan, fixture.subscriber);

    assert_error(result, SubscriptionError::DelegateRevoked);
}

#[test]
fn an_exactly_exhausted_delegation_clears_the_delegate() {
    let mut fixture = Fixture::new();
    fixture.subscribe(AMOUNT).unwrap();
    fixture.charge().unwrap();

    let token_account = fixture.world.token_account(fixture.subscriber, fixture.mint);
    assert_eq!(token_account.delegated_amount, 0);
    assert!(token_account.delegate.is_none());
    assert_eq!(fixture.subscription().allowance_remaining, 0);
}

// Account substitution

#[test]
fn each_merchant_is_paid_only_from_the_subscribers_associated_account() {
    let mut fixture = Fixture::new();
    fixture.subscribe(ALLOWANCE).unwrap();

    let before = fixture.world.balance(fixture.subscriber, fixture.mint);
    fixture.charge().unwrap();

    assert_eq!(fixture.world.balance(fixture.subscriber, fixture.mint), before - AMOUNT);
    assert_eq!(fixture.world.balance(fixture.merchant, fixture.mint), AMOUNT);
    assert_eq!(fixture.world.delegated(fixture.subscriber, fixture.mint), ALLOWANCE - AMOUNT);
}

#[test]
fn a_charge_cannot_be_redirected_to_another_merchant() {
    let mut fixture = Fixture::new();
    fixture.subscribe(ALLOWANCE).unwrap();

    let thief = Pubkey::new_unique();
    fixture.world.create_account(thief, fixture.mint, 0);

    let result = fixture
        .world
        .charge_into(fixture.plan, fixture.subscriber, (thief, fixture.mint));

    assert_error(result, SubscriptionError::WrongMerchantAccount);
    assert_eq!(fixture.world.balance(thief, fixture.mint), 0);
}

#[test]
fn a_merchant_account_on_another_mint_is_rejected() {
    let mut fixture = Fixture::new();
    fixture.subscribe(ALLOWANCE).unwrap();

    let other_mint = Pubkey::new_unique();
    fixture.world.create_account(fixture.merchant, other_mint, 0);

    let result = fixture
        .world
        .charge_into(fixture.plan, fixture.subscriber, (fixture.merchant, other_mint));

    assert_error(result, SubscriptionError::WrongMint);
}

// Guards and authorisation

#[test]
fn subscribe_rejects_a_zero_allowance() {
    let mut fixture = Fixture::new();
    let result = fixture.subscribe(0);

    assert_error(result, SubscriptionError::InvalidAllowance);
}

#[test]
fn subscribe_rejects_an_inactive_plan() {
    let mut fixture = Fixture::new();
    fixture.world.set_plan_active(fixture.plan, false).unwrap();

    let result = fixture.subscribe(ALLOWANCE);

    assert_error(result, SubscriptionError::PlanInactive);
    assert!(fixture.world.token_account(fixture.subscriber, fixture.mint).delegate.is_none());
}

#[test]
fn retiring_a_plan_stops_charging_existing_subscriptions() {
    let mut fixture = Fixture::new();
    fixture.subscribe(ALLOWANCE).unwrap();
    fixture.world.set_plan_active(fixture.plan, false).unwrap();

    let result = fixture.charge();

    assert_error(result, SubscriptionError::PlanInactive);
}

#[test]
fn a_charge_beyond_the_remaining_allowance_is_rejected() {
    let mut fixture = Fixture::new();
    fixture.subscribe(AMOUNT).unwrap();
    fixture.charge().unwrap();

    fixture.world.advance_clock(PERIOD);
    let result = fixture.charge();

    assert_error(result, SubscriptionError::AllowanceExhausted);
}

#[test]
fn a_charge_beyond_the_token_balance_fails_cleanly() {
    let mut fixture = Fixture::with_amount(FUNDING * 2);
    fixture.subscribe(FUNDING * 4).unwrap();

    let result = fixture.charge();

    assert!(result.is_err());
    assert_eq!(fixture.world.balance(fixture.merchant, fixture.mint), 0);
}
