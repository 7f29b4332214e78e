//! Opening a checkout session from a checkout link's client secret.
use vstd::prelude::*;
use vstd::string::*;
use crate::failure::{Failure, FailureReason, is_failure, is_default_failure};
use crate::mutations::create_checkout_session::{CheckoutSessionDraft, ProductPrice};

verus! {

/// A product of the link, with the amount of (one of) its prices.
pub struct LinkProduct {
    pub id: u128,
    pub price_amount: i64,
}

/// The message for a link that could not be found: it quotes the client secret.
pub open spec fn link_not_found_message(client_secret: Seq<char>) -> Seq<char> {
    "The checkout link '"@ + client_secret + "' could not be found."@
}

/// The link found for `client_secret`, or the not-found failure that quotes it.
pub fn require_link<T>(link: Option<T>, client_secret: &str) -> (found: Result<T, Failure>)
    ensures
        match link {
            Some(l) => found == Ok::<T, Failure>(l),
            None => found matches Err(f) && is_failure(
                f,
                FailureReason::NOT_FOUND,
                link_not_found_message(client_secret@),
            ),
        },
{
    match link {
        Some(l) => Ok(l),
        None => {
            let message = String::from_str("The checkout link '").concat(client_secret).concat("' could not be found.");
            Err(Failure::with_message(FailureReason::NOT_FOUND, message))
        },
    }
}

/// The session is for the link's first product; a link without products is an internal error.
pub fn first_product(products: &Vec<LinkProduct>) -> (first: Result<usize, Failure>)
    ensures
        products@.len() > 0 ==> first == Ok::<usize, Failure>(0),
        products@.len() == 0 ==> (first matches Err(f) && is_default_failure(f, FailureReason::INTERNAL_SERVER_ERROR)),
{
    if products.len() > 0 {
        Ok(0)
    } else {
        Err(Failure::internal())
    }
}

/// The session a link opens, before its client secret is drawn: in the link's store,
/// for the link's first product at that product's price, with no customer or email.
/// A link without products is an internal error.
pub fn draft_from_link(store_id: u128, products: &Vec<LinkProduct>) -> (draft: Result<CheckoutSessionDraft, Failure>)
    ensures
        products@.len() == 0 ==> (draft matches Err(f) && is_default_failure(f, FailureReason::INTERNAL_SERVER_ERROR)),
        products@.len() > 0 ==> (draft matches Ok(d) && d.product.id == products@[0].id && d.product.store_id
            == store_id && d.product.price_amount == products@[0].price_amount && d.customer_id is None
            && d.customer_email is None),
{
    let first = match first_product(products) {
        Ok(first) => first,
        Err(f) => return Err(f),
    };
    let product = ProductPrice { id: products[first].id, store_id, price_amount: products[first].price_amount };
    Ok(CheckoutSessionDraft { product, customer_id: None, customer_email: None })
}

/// The ids of the link's products, in order: the products the session is for.
pub fn product_ids(products: &Vec<LinkProduct>) -> (ids: Vec<u128>)
    ensures
        ids@ == products@.map_values(|p: LinkProduct| p.id),
{
    let mut ids: Vec<u128> = Vec::new();
    let mut i: usize = 0;
    while i < products.len()
        invariant
            i <= products.len(),
            ids@ =~= products@.subrange(0, i as int).map_values(|p: LinkProduct| p.id),
        decreases products.len() - i,
    {
        ids.push(products[i].id);
        i = i + 1;
        assert(ids@ =~= products@.subrange(0, i as int).map_values(|p: LinkProduct| p.id));
    }
    assert(products@.subrange(0, products@.len() as int) =~= products@);
    ids
}

} // verus!
