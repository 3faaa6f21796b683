//! Reading the system clock: the time since the Unix epoch, and its milliseconds.
use vstd::prelude::*;

use std::time::{Duration, SystemTime, UNIX_EPOCH};

verus! {

#[verifier::external_type_specification]
#[verifier::external_body]
pub struct ExSystemTime(SystemTime);

/// Calls `SystemTime::now`: the current reading of the system clock. Nothing is
/// promised of it.
#[verifier::external_body]
fn system_now() -> SystemTime {
    SystemTime::now()
}

/// Calls `SystemTime::duration_since(UNIX_EPOCH)`: the time elapsed from the Unix
/// epoch to `time`, or `None` for a time before the epoch (the error of
/// `duration_since`).
#[verifier::external_body]
fn since_epoch(time: &SystemTime) -> Option<Duration> {
    match time.duration_since(UNIX_EPOCH) {
        Ok(elapsed) => Some(elapsed),
        Err(_) => None,
    }
}

/// Calls `Duration::as_secs`: the whole seconds of `d`.
#[verifier::external_body]
fn whole_seconds(d: &Duration) -> u64 {
    d.as_secs()
}

/// Calls `Duration::subsec_nanos`: the nanoseconds of `d` beyond its whole seconds,
/// which the documentation of `Duration` bounds below one second.
#[verifier::external_body]
fn subsec_nanos(d: &Duration) -> (r: u32)
    ensures
        r < 1_000_000_000,
{
    d.subsec_nanos()
}

/// Reads the system clock: the whole seconds and the nanoseconds within the second
/// since the Unix epoch, or `None` for a clock that reads before the epoch.
pub fn read_clock() -> (r: Option<(u64, u32)>)
    ensures
        r matches Some((_, nanos)) ==> nanos < 1_000_000_000,
{
    let now = system_now();
    match since_epoch(&now) {
        Some(elapsed) => Some((whole_seconds(&elapsed), subsec_nanos(&elapsed))),
        None => None,
    }
}

/// The milliseconds since the Unix epoch of a clock reading; a reading before the
/// epoch counts as the epoch.
pub open spec fn reading_millis(reading: Option<(u64, u32)>) -> nat {
    match reading {
        Some((secs, nanos)) => (secs * 1000 + nanos / 1_000_000) as nat,
        None => 0,
    }
}

/// The milliseconds since the Unix epoch of `reading`, or `u64::MAX` where they do not
/// fit in a `u64`.
pub fn epoch_millis(reading: Option<(u64, u32)>) -> (r: u64)
    ensures
        r == if reading_millis(reading) <= u64::MAX {
            reading_millis(reading)
        } else {
            u64::MAX as nat
        },
{
    match reading {
        Some((secs, nanos)) => {
            let sub: u64 = (nanos / 1_000_000) as u64;
            match secs.checked_mul(1000) {
                Some(whole) => whole.saturating_add(sub),
                None => u64::MAX,
            }
        },
        None => 0,
    }
}

} // verus!
