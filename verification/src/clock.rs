//! Wall-clock time for the rate limiter's bucket computation.

use vstd::prelude::*;

use chrono::Utc;

verus! {

/// Relies on `chrono::Utc::now` and `chrono::DateTime::timestamp`:
/// the current wall-clock time as whole seconds since the Unix epoch.
/// `Utc::now` aborts the process if the system clock is set before the
/// epoch, and otherwise returns a time at or after it, so a returned
/// value is never negative. Nothing more is promised of the value:
/// every caller must work for any non-negative reading.
#[verifier::external_body]
pub(crate) fn now_unix_seconds() -> (r: i64)
    ensures
        r >= 0,
{
    Utc::now().timestamp()
}

/// The current wall-clock reading as an unsigned second count.
pub(crate) fn now_seconds() -> (r: u64) {
    let t = now_unix_seconds();
    t as u64
}

} // verus!
