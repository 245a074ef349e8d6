//! Wall-clock access.
//!
//! The clock decides nothing in the library: readings are stamped with
//! whatever it returns, and elapsed times are reported as measured.  No
//! contract therefore constrains the returned instants.

use vstd::prelude::*;

use std::time::Duration;
use std::time::SystemTime;

verus! {

#[verifier::external_type_specification]
#[verifier::external_body]
pub struct ExSystemTime(SystemTime);

/// Relies on `std::time::SystemTime::now`: the current wall-clock time.
#[verifier::external_body]
pub fn system_now() -> SystemTime {
    SystemTime::now()
}

/// Relies on `SystemTime::duration_since`: the time elapsed from
/// `earlier` to `later`, or nothing when the clock went backwards.
#[verifier::external_body]
pub fn time_since(later: &SystemTime, earlier: &SystemTime) -> Option<Duration> {
    later.duration_since(*earlier).ok()
}

/// Relies on `SystemTime::duration_since` against `UNIX_EPOCH`: the time
/// elapsed since the epoch, or nothing when the clock reads earlier.
#[verifier::external_body]
pub fn time_since_epoch(t: &SystemTime) -> Option<Duration> {
    t.duration_since(SystemTime::UNIX_EPOCH).ok()
}

/// Relies on `Duration::as_secs`: the whole seconds of the duration.
#[verifier::external_body]
pub fn duration_secs(d: &Duration) -> u64 {
    d.as_secs()
}

/// Relies on `Duration::as_millis`: the whole milliseconds of the
/// duration, truncated to 64 bits.
#[verifier::external_body]
pub fn duration_millis(d: &Duration) -> u64 {
    d.as_millis() as u64
}

} // verus!
