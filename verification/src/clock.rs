//! Wall-clock readings. The clock is best-effort: nothing is assumed of
//! the values it hands back, and no contract of the library depends on
//! two readings being ordered.

use vstd::prelude::*;

verus! {

/// Relies on chrono::Utc::now: the current wall-clock time in
/// milliseconds since the epoch. The value depends on the clock alone.
#[verifier::external_body]
pub fn now_millis() -> i64 {
    chrono::Utc::now().timestamp_millis()
}

/// Relies on chrono::Local::now and its formatter: the current local time
/// rendered as `year-month-day hour:minute:second.millis`.
#[verifier::external_body]
pub fn local_timestamp_display() -> String {
    chrono::Local::now().format("%Y-%m-%d %H:%M:%S%.3f").to_string()
}

} // verus!
