//! The current time, as the system clock gives it.
use vstd::prelude::*;

verus! {

/// `std::time::SystemTime::now().duration_since(UNIX_EPOCH)`, in whole microseconds:
/// the time elapsed since 1970 by the system clock, or `None` where the clock stands
/// before 1970 (the call's `Err`). Which time it is, is not stated.
#[verifier::external_body]
pub(crate) fn micros_since_epoch() -> (micros: Option<u128>) {
    match std::time::SystemTime::now().duration_since(std::time::UNIX_EPOCH) {
        Ok(elapsed) => Some(elapsed.as_micros()),
        Err(_) => None,
    }
}

} // verus!
