//! Access to the system clock as plain numbers.
//!
//! The clock is the one nondeterministic input of this crate: nothing is
//! promised about the values it yields, and every function that depends on a
//! timestamp takes it as an argument or states what holds of any reading.

use vstd::prelude::*;

verus! {

/// Relies on std `SystemTime::now` and `duration_since(UNIX_EPOCH)`: yields
/// the seconds of the system clock since the Unix epoch, or `None` when the
/// clock reads before the epoch.  The value itself is nondeterministic, so
/// nothing is promised of it.
#[verifier::external_body]
pub fn unix_time_seconds() -> (r: Option<u64>)
{
    match std::time::SystemTime::now().duration_since(std::time::UNIX_EPOCH) {
        Ok(d) => Some(d.as_secs()),
        Err(_) => None,
    }
}

/// Relies on std `SystemTime::now` and `duration_since(UNIX_EPOCH)`: yields
/// the nanoseconds of the system clock since the Unix epoch, or `None` when
/// the clock reads before the epoch.  Nothing is promised of the value.
#[verifier::external_body]
pub fn unix_time_nanos() -> (r: Option<u128>)
{
    match std::time::SystemTime::now().duration_since(std::time::UNIX_EPOCH) {
        Ok(d) => Some(d.as_nanos()),
        Err(_) => None,
    }
}

/// Current Unix time in whole seconds; zero when the clock reads before the
/// epoch.
pub fn get_current_timestamp() -> (r: u64) {
    match unix_time_seconds() {
        Some(t) => t,
        None => 0,
    }
}

/// Current Unix time in whole nanoseconds; zero when the clock reads before
/// the epoch.
pub fn get_current_timestamp_nanos() -> (r: u128) {
    match unix_time_nanos() {
        Some(t) => t,
        None => 0,
    }
}

} // verus!
