//! Verified core of a recurring-billing program: merchants publish plans,
//! subscribers grant a capped and revocable token delegation, and anyone may
//! crank a due charge. Every instruction is a function from the accounts it
//! reads to the accounts it writes and the token-program request it makes.
pub mod constants;
pub mod delegation;
pub mod error;
pub mod instructions;
pub mod laws;
pub mod pubkey;
pub mod state;

pub use constants::PRICE_CHANGE_NOTICE_SECONDS;
pub use delegation::TokenAccount;
pub use error::SubscriptionError;
pub use instructions::{
    Cancel, Charge, CreatePlan, PriceUpdated, Reauthorize, SetAllowance, SetMaxAmount,
    SetPlanActive, Subscribe, UpdatePrice,
};
pub use state::{Plan, PriceMode, SubscriberDelegation, Subscription};
