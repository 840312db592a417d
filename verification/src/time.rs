//! The one clock read the library makes.

use vstd::prelude::*;

verus! {

/// Relies on `chrono::Utc::now` (read as `timestamp_millis`): the current
/// time in milliseconds since the Unix epoch. Nothing is promised of the
/// value; every decision that depends on it takes the reading as an
/// argument.
#[verifier::external_body]
pub fn now_millis() -> i64 {
    chrono::Utc::now().timestamp_millis()
}

} // verus!
