//! The checks that open most requests: that a row was found, and that the
//! requester belongs to the store the request is about.
use vstd::prelude::*;
use vstd::string::*;
use crate::failure::{Failure, FailureReason, is_failure, id_message};

verus! {

/// The message of the failure for a requester outside the store.
pub open spec fn not_member_message() -> Seq<char> {
    "You are not a member of this store"@
}

/// Passes where the membership query found the requester among the store's members;
/// a missing answer counts as no.
pub fn require_member(member_exists: Option<bool>) -> (checked: Result<(), Failure>)
    ensures
        member_exists == Some(true) ==> checked is Ok,
        member_exists != Some(true) ==> (checked matches Err(f) && is_failure(
            f,
            FailureReason::FORBIDDEN,
            not_member_message(),
        )),
{
    match member_exists {
        Some(true) => Ok(()),
        _ => Err(Failure::with_message(FailureReason::FORBIDDEN, String::from_str("You are not a member of this store"))),
    }
}

/// The row a lookup found, or the not-found failure that names the resource by id.
pub fn require_found<T>(row: Option<T>, prefix: &str, id: u128, suffix: &str) -> (found: Result<T, Failure>)
    ensures
        match row {
            Some(r) => found == Ok::<T, Failure>(r),
            None => found matches Err(f) && is_failure(
                f,
                FailureReason::NOT_FOUND,
                id_message(prefix@, id, suffix@),
            ),
        },
{
    match row {
        Some(r) => Ok(r),
        None => Err(Failure::about_id(FailureReason::NOT_FOUND, prefix, id, suffix)),
    }
}

/// Passes where an existence query answered yes; otherwise the not-found failure
/// that names the resource by id. A missing answer counts as no.
pub fn require_exists(exists: Option<bool>, prefix: &str, id: u128, suffix: &str) -> (checked: Result<(), Failure>)
    ensures
        exists == Some(true) ==> checked is Ok,
        exists != Some(true) ==> (checked matches Err(f) && is_failure(
            f,
            FailureReason::NOT_FOUND,
            id_message(prefix@, id, suffix@),
        )),
{
    match exists {
        Some(true) => Ok(()),
        _ => Err(Failure::about_id(FailureReason::NOT_FOUND, prefix, id, suffix)),
    }
}

/// The row a lookup found, or the failure given for its absence.
pub fn found_or<T>(row: Option<T>, missing: Failure) -> (found: Result<T, Failure>)
    ensures
        match row {
            Some(r) => found == Ok::<T, Failure>(r),
            None => found == Err::<T, Failure>(missing),
        },
{
    match row {
        Some(r) => Ok(r),
        None => Err(missing),
    }
}

} // verus!
