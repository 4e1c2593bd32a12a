//! The wall clock, an outside capability: the store records when a
//! subscription arrived, but no logic depends on which instant it was.

use vstd::prelude::*;

verus! {

/// Relies on chrono's Utc::now and DateTime::timestamp: the current time
/// as seconds since the epoch; nothing is promised about which value
/// comes back.
#[verifier::external_body]
pub(crate) fn now_timestamp() -> i64 {
    chrono::Utc::now().timestamp()
}

} // verus!
