//! The clocks of the standard library, as far as the timers read them.
//!
//! Nothing here is proved: Verus takes each declaration as it stands. None
//! of them promises anything of a reading, since a clock may show any time.

use vstd::prelude::*;
use std::time::{Duration, Instant, SystemTime, UNIX_EPOCH};

verus! {

/// `std::time::Instant`, a point in time of the monotonic clock. Its inside
/// is hidden from the proofs.
#[verifier::external_type_specification]
#[verifier::external_body]
pub struct ExInstant(std::time::Instant);

/// `std::time::SystemTime`, a point in time of the wall clock. Its inside is
/// hidden from the proofs.
#[verifier::external_type_specification]
#[verifier::external_body]
pub struct ExSystemTime(std::time::SystemTime);

/// Calls `Instant::elapsed`: the time that has passed since `start`. Nothing
/// is claimed of the result.
#[verifier::external_body]
pub(crate) fn elapsed_since(start: &Instant) -> (elapsed: Duration) {
    start.elapsed()
}

/// Calls `Duration::as_micros`: the whole microseconds in a duration.
/// Nothing is claimed of the result.
#[verifier::external_body]
pub(crate) fn whole_micros(duration: &Duration) -> (micros: u128) {
    duration.as_micros()
}

/// Calls `SystemTime::now`: the wall clock's present time. Nothing is
/// claimed of the result.
#[verifier::external_body]
pub(crate) fn wall_clock_now() -> (now: SystemTime) {
    SystemTime::now()
}

/// Calls `SystemTime::duration_since` with `UNIX_EPOCH`: the time from the
/// epoch to `time`, or `None` where the call fails because `time` lies before
/// the epoch. Nothing is claimed of the result.
#[verifier::external_body]
pub(crate) fn since_unix_epoch(time: &SystemTime) -> (since: Option<Duration>) {
    match time.duration_since(UNIX_EPOCH) {
        Ok(duration) => Some(duration),
        Err(_) => None,
    }
}

} // verus!
