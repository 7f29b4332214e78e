//! Opening a payment account for a store.
use vstd::prelude::*;
use vstd::string::*;
use crate::entities::StoreStatus;
use crate::failure::{Failure, FailureReason, is_failure, id_message};
use crate::guards::{not_member_message, require_found, require_member};

verus! {

/// The store an account is requested for: its status, and whether the requester is a member.
pub struct StoreForAccount {
    pub status: StoreStatus,
    pub store_member_exists: Option<bool>,
}

/// A store gets an account once, when it is newly created, and only at a member's request.
pub fn check_store(store_id: u128, store: Option<StoreForAccount>) -> (checked: Result<(), Failure>)
    ensures
        match store {
            None => checked matches Err(f) && is_failure(
                f,
                FailureReason::NOT_FOUND,
                id_message("The store '"@, store_id, "' could not be found"@),
            ),
            Some(s) => if s.store_member_exists != Some(true) {
                checked matches Err(f) && is_failure(f, FailureReason::FORBIDDEN, not_member_message())
            } else if s.status != StoreStatus::Created {
                checked matches Err(f) && is_failure(
                    f,
                    FailureReason::CONFLICT,
                    "This store already has an account"@,
                )
            } else {
                checked is Ok
            },
        },
{
    let s = require_found(store, "The store '", store_id, "' could not be found")?;
    require_member(s.store_member_exists)?;
    if s.status != StoreStatus::Created {
        return Err(Failure::with_message(FailureReason::CONFLICT, String::from_str("This store already has an account")));
    }
    Ok(())
}

} // verus!
