//! Deleting a checkout link.
use vstd::prelude::*;
use crate::failure::{Failure, FailureReason, is_failure, id_message};
use crate::guards::require_exists;

verus! {

/// Only a live link of one of the requester's stores can be deleted.
pub fn check_link(link_exists: Option<bool>, id: u128) -> (checked: Result<(), Failure>)
    ensures
        link_exists == Some(true) ==> checked is Ok,
        link_exists != Some(true) ==> (checked matches Err(f) && is_failure(
            f,
            FailureReason::NOT_FOUND,
            id_message("The checkout link '"@, id, "' could not be found"@),
        )),
{
    require_exists(link_exists, "The checkout link '", id, "' could not be found")
}

} // verus!
