//! Wall-clock time and uptime.

use std::time::{Duration, Instant, SystemTime, UNIX_EPOCH};
use vstd::prelude::*;

verus! {

/// `std::time::SystemTime`, carried through as it is: nothing is known of a
/// value of it.
#[verifier::external_type_specification]
#[verifier::external_body]
pub struct ExSystemTime(std::time::SystemTime);

/// `std::time::Instant`, carried through as it is: nothing is known of a
/// value of it.
#[verifier::external_type_specification]
#[verifier::external_body]
pub struct ExInstant(std::time::Instant);

/// `SystemTime::now`: the wall clock, of which nothing is promised.
#[verifier::external_body]
fn system_now() -> SystemTime {
    SystemTime::now()
}

/// `SystemTime::duration_since` against `UNIX_EPOCH`: the time passed since the
/// epoch, or `None` where the clock stands before it.
#[verifier::external_body]
fn since_unix_epoch(now: &SystemTime) -> Option<Duration> {
    match now.duration_since(UNIX_EPOCH) {
        Ok(elapsed) => Some(elapsed),
        Err(_) => None,
    }
}

/// `Duration::as_millis`: the whole milliseconds in a duration.
#[verifier::external_body]
fn whole_millis(elapsed: &Duration) -> u128 {
    elapsed.as_millis()
}

/// `Instant::now`: a reading of the monotonic clock.
#[verifier::external_body]
pub(crate) fn instant_now() -> Instant {
    Instant::now()
}

/// `Instant::elapsed`: the time passed since the reading was taken.
#[verifier::external_body]
fn elapsed_since(start: &Instant) -> Duration {
    start.elapsed()
}

/// `Duration::as_secs`: the whole seconds in a duration.
#[verifier::external_body]
fn whole_secs(elapsed: &Duration) -> u64 {
    elapsed.as_secs()
}

/// The timestamp that stands for `millis` milliseconds since the epoch: the
/// count itself, cut to 64 bits; zero where the clock stood before the epoch.
pub open spec fn epoch_ms_of(millis: Option<u128>) -> u64 {
    match millis {
        Some(ms) => (ms % 0x1_0000_0000_0000_0000) as u64,
        None => 0,
    }
}

/// Turns a count of milliseconds since the epoch into a timestamp.
pub fn epoch_ms_from(millis: Option<u128>) -> (stamp: u64)
    ensures
        stamp == epoch_ms_of(millis),
{
    match millis {
        Some(ms) => (ms % 0x1_0000_0000_0000_0000) as u64,
        None => 0,
    }
}

/// Current time as milliseconds since the UNIX epoch; zero where the clock
/// stands before the epoch.
pub fn current_epoch_ms() -> (stamp: u64) {
    let now = system_now();
    let millis = match since_unix_epoch(&now) {
        Some(elapsed) => Some(whole_millis(&elapsed)),
        None => None,
    };
    epoch_ms_from(millis)
}

/// Whole seconds passed since `start` was read.
pub fn uptime_secs(start: &Instant) -> (secs: u64) {
    let elapsed = elapsed_since(start);
    whole_secs(&elapsed)
}

} // verus!
