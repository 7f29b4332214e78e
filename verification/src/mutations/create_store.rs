//! Creating a store, with the requester as its first member.
use vstd::prelude::*;
use vstd::string::*;
use crate::failure::{Failure, FailureReason, is_failure};

verus! {

/// The message for a slug that another store has.
pub open spec fn slug_taken_message(slug: Seq<char>) -> Seq<char> {
    "The slug '"@ + slug + "' is already in use"@
}

/// A slug names one store only.
pub fn check_slug_available(store_with_same_slug: Option<bool>, slug: &str) -> (checked: Result<(), Failure>)
    ensures
        store_with_same_slug == Some(true) ==> (checked matches Err(f) && is_failure(
            f,
            FailureReason::CONFLICT,
            slug_taken_message(slug@),
        )),
        store_with_same_slug != Some(true) ==> checked is Ok,
{
    match store_with_same_slug {
        Some(true) => {
            let message = String::from_str("The slug '").concat(slug).concat("' is already in use");
            Err(Failure::with_message(FailureReason::CONFLICT, message))
        },
        _ => Ok(()),
    }
}

} // verus!
