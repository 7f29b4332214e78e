//! Signing in with the code that was mailed.
use vstd::prelude::*;
use vstd::string::*;
use crate::failure::{Failure, FailureReason, is_failure};

verus! {

/// Signing in needs an unused, unexpired token with this id, email and code.
pub fn check_one_time_token(token_exists: Option<bool>) -> (checked: Result<(), Failure>)
    ensures
        token_exists == Some(true) ==> checked is Ok,
        token_exists != Some(true) ==> (checked matches Err(f) && is_failure(
            f,
            FailureReason::NOT_FOUND,
            "There's no matching one-time token"@,
        )),
{
    match token_exists {
        Some(true) => Ok(()),
        _ => Err(Failure::with_message(FailureReason::NOT_FOUND, String::from_str("There's no matching one-time token"))),
    }
}

} // verus!
