pub mod cancel;
pub mod charge;
pub mod create_plan;
pub mod reauthorize;
pub mod set_allowance;
pub mod set_max_amount;
pub mod set_plan_active;
pub mod subscribe;
pub mod update_price;

pub use cancel::Cancel;
pub use charge::{next_due_date, Charge};
pub use create_plan::CreatePlan;
pub use reauthorize::Reauthorize;
pub use set_allowance::SetAllowance;
pub use set_max_amount::SetMaxAmount;
pub use set_plan_active::SetPlanActive;
pub use subscribe::Subscribe;
pub use update_price::{PriceUpdated, UpdatePrice};
