//! The wall clock.

use vstd::prelude::*;

verus! {

/// Calls `chrono::Utc::now()` and reads it as milliseconds since the Unix
/// epoch. The time of day is outside any contract: nothing is claimed of the value.
#[verifier::external_body]
pub(crate) fn utc_now_millis() -> i64 {
    chrono::Utc::now().timestamp_millis()
}

} // verus!
