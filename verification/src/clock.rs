//! The wall clock, read once per loop iteration.

use vstd::prelude::*;
use std::time::{SystemTime, UNIX_EPOCH};

verus! {

/// Relies on `std::time::SystemTime::now`, read off as milliseconds since
/// `UNIX_EPOCH`. Nothing can be promised of a clock reading; a clock standing
/// before the epoch reads as zero.
#[verifier::external_body]
fn epoch_millis_now() -> u128 {
    SystemTime::now().duration_since(UNIX_EPOCH).map(|d| d.as_millis()).unwrap_or(0)
}

/// The current wall-clock time as milliseconds since the epoch. Every loop
/// iteration stamps its decisions with this; two readings may be anything,
/// so no caller's proof rests on what the clock returned.
pub fn current_time_millis() -> u128 {
    epoch_millis_now()
}

} // verus!
