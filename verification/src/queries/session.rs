//! Reading one of the requester's sessions.
use vstd::prelude::*;
use crate::entities::Session;
use crate::failure::{Failure, FailureReason, is_failure, id_message};
use crate::guards::require_found;

verus! {

/// The session, if it is the requester's and not revoked.
pub fn require_session(session: Option<Session>, id: u128) -> (found: Result<Session, Failure>)
    ensures
        match session {
            Some(s) => found == Ok::<Session, Failure>(s),
            None => found matches Err(f) && is_failure(
                f,
                FailureReason::NOT_FOUND,
                id_message("The session '"@, id, "' could not be found"@),
            ),
        },
{
    require_found(session, "The session '", id, "' could not be found")
}

} // verus!
