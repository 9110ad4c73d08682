//! The wall clock.

use vstd::prelude::*;

verus! {

/// The current instant in milliseconds since the Unix epoch.
///
/// This is `chrono::Utc::now().timestamp_millis()`, taken on trust: the body
/// is not verified. The value comes from the system clock, so nothing is
/// claimed of it. Two calls may return any two values, and callers state what
/// holds for every instant. `Utc::now` stops the program if the system clock
/// reads earlier than the epoch.
#[verifier::external_body]
pub(crate) fn now_millis() -> (now: i64) {
    chrono::Utc::now().timestamp_millis()
}

} // verus!
