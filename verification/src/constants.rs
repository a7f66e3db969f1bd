use vstd::prelude::*;

verus! {

/// How long an announced price change waits before it applies: a flat day.
pub const PRICE_CHANGE_NOTICE_SECONDS: i64 = 24 * 60 * 60;

} // verus!
