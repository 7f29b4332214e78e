//! Switching a checkout session to another of its products.
use vstd::prelude::*;
use vstd::string::*;
use crate::encoding::{uuid_text, uuid_text_of};
use crate::entities::CheckoutSession;
use crate::failure::{Failure, FailureReason, is_failure, id_message};
use crate::guards::require_found;

verus! {

/// The session, if it belongs to one of the requester's stores.
pub fn require_session(session: Option<CheckoutSession>, id: u128) -> (found: Result<CheckoutSession, Failure>)
    ensures
        match session {
            Some(s) => found == Ok::<CheckoutSession, Failure>(s),
            None => found matches Err(f) && is_failure(
                f,
                FailureReason::NOT_FOUND,
                id_message("The checkout session '"@, id, "' could not be found"@),
            ),
        },
{
    require_found(session, "The checkout session '", id, "' could not be found")
}

/// The product to switch to: a requested product other than the current one; the
/// session is returned unchanged otherwise.
pub fn product_change(current_product_id: u128, requested: Option<u128>) -> (change: Option<u128>)
    ensures
        change == match requested {
            Some(p) => if p != current_product_id {
                Some(p)
            } else {
                None::<u128>
            },
            None => None::<u128>,
        },
{
    match requested {
        Some(p) => if p != current_product_id {
            Some(p)
        } else {
            None
        },
        None => None,
    }
}

/// The message for a product that the session does not offer.
pub open spec fn foreign_product_message(product_id: u128) -> Seq<char> {
    "The product '"@ + uuid_text_of(product_id) + "' does not belong to this checkout session"@
}

/// The price of the new product, which must be one of the session's products.
pub fn require_session_price(price_amount: Option<i64>, product_id: u128) -> (price: Result<i64, Failure>)
    ensures
        match price_amount {
            Some(a) => price == Ok::<i64, Failure>(a),
            None => price matches Err(f) && is_failure(f, FailureReason::CONFLICT, foreign_product_message(product_id)),
        },
{
    match price_amount {
        Some(a) => Ok(a),
        None => {
            let message = String::from_str("The product '").concat(uuid_text(product_id).as_str()).concat(
                "' does not belong to this checkout session",
            );
            Err(Failure::with_message(FailureReason::CONFLICT, message))
        },
    }
}

} // verus!
