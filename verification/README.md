# subscriptions

Recurring merchant charges that the payer can cancel unilaterally, on Solana.
Merchants publish plans; a subscriber grants a capped, revocable SPL token
delegation to the program's delegate authority; anyone may crank a due charge,
which moves the price in force when the period began from the subscriber's
associated token account to the merchant.

- `src/` is the verified library. Each instruction is a struct of the accounts
  it reads and writes with a `run` method whose contract states its outcome
  (`outcome` spec functions where the decision has several steps): the new
  account values, and the token-program request (an amount to approve or to
  transfer) or the refusal. `src/laws.rs` proves the properties that span
  calls: a backlog is billed once, crank timing cannot change a bill, the
  subscriber's pool stays the sum of their open allowances, and a price
  change waits out its notice.
- `app/` is the Anchor program around it: account validation, the clock,
  the `approve` and `transfer_checked` calls, events and account copies with
  Anchor's derives.
- `tests/` exercise the library directly and through a small in-memory model
  of the token accounts.
