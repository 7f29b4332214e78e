//! Revoking one of the requester's sessions.
use vstd::prelude::*;
use crate::failure::{Failure, FailureReason, is_failure, id_message};
use crate::guards::require_exists;

verus! {

/// Only a session of the requester can be revoked.
pub fn check_session(session_exists: Option<bool>, id: u128) -> (checked: Result<(), Failure>)
    ensures
        session_exists == Some(true) ==> checked is Ok,
        session_exists != Some(true) ==> (checked matches Err(f) && is_failure(
            f,
            FailureReason::NOT_FOUND,
            id_message("The session '"@, id, "' could not be found"@),
        )),
{
    require_exists(session_exists, "The session '", id, "' could not be found")
}

} // verus!
