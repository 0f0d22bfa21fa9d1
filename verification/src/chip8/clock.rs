//! The wall clock, read once to seed the random number generator.

use vstd::prelude::*;

use core::time::Duration;
use std::time::{SystemTime, SystemTimeError};

verus! {

/// `std::time::SystemTime`, carried through opaquely.
#[verifier::external_type_specification]
#[verifier::external_body]
pub struct ExSystemTime(SystemTime);

/// `std::time::SystemTimeError`, carried through opaquely.
#[verifier::external_type_specification]
#[verifier::external_body]
pub struct ExSystemTimeError(SystemTimeError);

/// Calls `SystemTime::now`. Nothing is stated of the instant returned: it is
/// whatever the machine's clock reads.
#[verifier::external_body]
fn system_time_now() -> SystemTime {
    SystemTime::now()
}

/// Calls `SystemTime::duration_since` with `UNIX_EPOCH`. Nothing is stated of
/// the result, since `SystemTime` is opaque here: it is the time elapsed
/// since the epoch, or an error when the clock reads an earlier instant.
#[verifier::external_body]
fn since_unix_epoch(t: &SystemTime) -> Result<Duration, SystemTimeError> {
    t.duration_since(std::time::UNIX_EPOCH)
}

/// Calls `Duration::default`, the zero duration. `Duration` is opaque here,
/// so that it is zero is left unstated.
#[verifier::external_body]
fn zero_duration() -> Duration {
    Duration::default()
}

/// Calls `Duration::as_nanos`. `Duration` is opaque here, so the number of
/// nanoseconds it holds is left unstated.
#[verifier::external_body]
fn duration_as_nanos(d: &Duration) -> u128 {
    d.as_nanos()
}

/// Nanoseconds since the Unix epoch by the system clock, or 0 when the clock
/// reads a time before the epoch. Nothing is promised of the value.
pub(crate) fn clock_nanos() -> u128 {
    let now = system_time_now();
    let elapsed = match since_unix_epoch(&now) {
        Ok(d) => d,
        Err(_) => zero_duration(),
    };
    duration_as_nanos(&elapsed)
}

} // verus!
