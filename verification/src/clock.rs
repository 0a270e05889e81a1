//! Wall-clock time, read for the timestamps of video segments and playlist
//! entries.

use vstd::prelude::*;

verus! {

/// Milliseconds since the Unix epoch, from `std::time::SystemTime::now`.
/// Nothing is claimed of the value: it is whatever the system clock says, and
/// 0 where the clock stands before the epoch.
#[verifier::external_body]
pub(crate) fn unix_millis() -> u64 {
    match std::time::SystemTime::now().duration_since(std::time::UNIX_EPOCH) {
        Ok(elapsed) => elapsed.as_millis() as u64,
        Err(_) => 0,
    }
}

} // verus!
