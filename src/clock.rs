//! The wall clock, in microseconds since the Unix epoch.

use vstd::prelude::*;

verus! {

/// Relies on `chrono::Utc::now` and `DateTime::timestamp_micros`: the
/// current time as microseconds since the Unix epoch. Nothing is promised of
/// the value, which depends on the moment of the call.
#[verifier::external_body]
pub(crate) fn now_micros() -> (r: i64) {
    chrono::Utc::now().timestamp_micros()
}

} // verus!
