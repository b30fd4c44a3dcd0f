//! The wall clock, as a frame's timestamp.

use std::time::{Duration, SystemTime, SystemTimeError, UNIX_EPOCH};
use vstd::prelude::*;

verus! {

/// Why no timestamp could be had.
#[derive(Clone, Copy, Debug, PartialEq, Eq, Structural)]
pub enum ClockError {
    /// The clock reports a time before the Unix epoch.
    BeforeEpoch,
}

/// std's point in time, as the system clock reports it.
#[verifier::external_type_specification]
#[verifier::external_body]
pub struct ExSystemTime(SystemTime);

/// std's error for a point in time that lies before another.
#[verifier::external_type_specification]
#[verifier::external_body]
pub struct ExSystemTimeError(SystemTimeError);

/// `SystemTime::now`. Nothing is claimed of the time that it reports.
#[verifier::external_body]
fn system_now() -> SystemTime {
    SystemTime::now()
}

/// `SystemTime::duration_since`, from the Unix epoch. Nothing is claimed of
/// the outcome: it is an error where the time lies before the epoch.
#[verifier::external_body]
fn since_unix_epoch(t: &SystemTime) -> Result<Duration, SystemTimeError> {
    t.duration_since(UNIX_EPOCH)
}

/// `Duration::as_millis`. Nothing is claimed of the number.
#[verifier::external_body]
fn whole_millis(d: &Duration) -> u128 {
    d.as_millis()
}

/// The timestamp for a clock reading: the milliseconds since the epoch,
/// cut to sixty-four bits, or an error where the clock gave none.
pub open spec fn timestamp_of(elapsed_ms: Option<u128>) -> Result<u64, ClockError> {
    match elapsed_ms {
        Some(ms) => Ok((ms % 0x1_0000_0000_0000_0000) as u64),
        None => Err(ClockError::BeforeEpoch),
    }
}

/// Turns a clock reading into a timestamp.
pub fn timestamp_from_reading(elapsed_ms: Option<u128>) -> (r: Result<u64, ClockError>)
    ensures
        r == timestamp_of(elapsed_ms),
{
    match elapsed_ms {
        Some(ms) => Ok((ms % 0x1_0000_0000_0000_0000) as u64),
        None => Err(ClockError::BeforeEpoch),
    }
}

/// The current time in milliseconds since the Unix epoch. Which time that
/// is, is up to the system clock; it fails where the clock is set before
/// the epoch.
pub fn now_ms() -> (r: Result<u64, ClockError>)
    ensures
        exists|elapsed_ms: Option<u128>| r == timestamp_of(elapsed_ms),
{
    let now = system_now();
    let elapsed_ms: Option<u128> = match since_unix_epoch(&now) {
        Ok(elapsed) => Some(whole_millis(&elapsed)),
        Err(_) => None,
    };
    timestamp_from_reading(elapsed_ms)
}

} // verus!
