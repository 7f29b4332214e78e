//! Reading the balance of a store's account.
use vstd::prelude::*;
use crate::entities::Balance;
use crate::failure::{Failure, FailureReason, is_failure, id_message};
use crate::guards::require_found;

verus! {

/// The balance, if the account belongs to one of the requester's stores.
pub fn require_balance(balance: Option<Balance>, account_id: u128) -> (found: Result<Balance, Failure>)
    ensures
        match balance {
            Some(b) => found == Ok::<Balance, Failure>(b),
            None => found matches Err(f) && is_failure(
                f,
                FailureReason::NOT_FOUND,
                id_message("The account '"@, account_id, "' could not be found"@),
            ),
        },
{
    require_found(balance, "The account '", account_id, "' could not be found")
}

} // verus!
