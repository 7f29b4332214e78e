//! Deleting a customer.
use vstd::prelude::*;
use crate::failure::{Failure, FailureReason, is_failure, id_message};
use crate::guards::require_exists;

verus! {

/// Only a live customer of one of the requester's stores can be deleted.
pub fn check_customer(customer_exists: Option<bool>, id: u128) -> (checked: Result<(), Failure>)
    ensures
        customer_exists == Some(true) ==> checked is Ok,
        customer_exists != Some(true) ==> (checked matches Err(f) && is_failure(
            f,
            FailureReason::NOT_FOUND,
            id_message("The customer '"@, id, "' could not be found"@),
        )),
{
    require_exists(customer_exists, "The customer '", id, "' could not be found")
}

} // verus!
