//! The system clock.

use vstd::prelude::*;

verus! {

/// Reads the clock with `std::time::SystemTime::now`: the seconds elapsed
/// since the Unix epoch, or `None` when the clock stands before it. Nothing is
/// known of the value: two readings may differ in either direction.
#[verifier::external_body]
pub(crate) fn unix_seconds() -> (seconds: Option<u64>) {
    match std::time::SystemTime::now().duration_since(std::time::UNIX_EPOCH) {
        Ok(elapsed) => Some(elapsed.as_secs()),
        Err(_) => None,
    }
}

} // verus!
