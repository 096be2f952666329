//! The two clocks the library reads: a monotonic one for connection times
//! and the wall clock for capture timestamps.

use vstd::prelude::*;
use std::time::Instant;
use std::time::SystemTime;
use std::time::UNIX_EPOCH;

verus! {

/// `std::time::Instant`, a point on the monotonic clock. Its inside is not
/// visible to the verifier.
#[verifier::external_type_specification]
#[verifier::external_body]
pub struct ExInstant(Instant);

/// `Instant::now`: the current point on the monotonic clock. Nothing is
/// claimed of the value.
#[verifier::external_body]
pub(crate) fn monotonic_now() -> Instant {
    Instant::now()
}

/// `SystemTime::now().duration_since(UNIX_EPOCH)` in whole milliseconds, cut
/// to 64 bits, or `None` when the wall clock stands before the epoch. Nothing
/// is claimed of the value.
#[verifier::external_body]
pub(crate) fn unix_time_millis() -> Option<u64> {
    match SystemTime::now().duration_since(UNIX_EPOCH) {
        Ok(elapsed) => Some(elapsed.as_millis() as u64),
        Err(_) => None,
    }
}

} // verus!
