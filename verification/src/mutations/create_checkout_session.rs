//! Opening a checkout session for one or more of a store's products.
use vstd::prelude::*;
use vstd::string::*;
use crate::encoding::{uuid_text, uuid_text_of};
use crate::failure::{Failure, FailureReason, is_failure, id_message};
use crate::guards::require_found;
use crate::mutations::product_checks::{ProductStore, check_is_defined, check_products, product_check_outcome};
use crate::utils::create_client_secret::{self, client_secret_of, SECRET_BYTES};

verus! {

/// A product the lookup found, with the amount of (one of) its prices.
pub struct ProductPrice {
    pub id: u128,
    pub store_id: u128,
    pub price_amount: i64,
}

/// The product rows reduced to what the product check reads.
pub open spec fn stores_of(rows: Seq<ProductPrice>) -> Seq<ProductStore> {
    rows.map_values(|r: ProductPrice| ProductStore { id: r.id, store_id: r.store_id })
}

/// Checks the requested products against those found (see `check_products`) and
/// returns the row of the first requested product: its store and price make the session.
pub fn choose_product(requested: &Vec<u128>, found: &Vec<ProductPrice>) -> (outcome: Result<usize, Failure>)
    requires
        check_is_defined(requested@, stores_of(found@)),
    ensures
        product_check_outcome(requested@, stores_of(found@), outcome),
        outcome matches Ok(p) ==> {
            &&& p < found@.len()
            &&& found@[p as int].id == requested@[0]
            &&& forall|k: int| 0 <= k < found@.len() ==> (#[trigger] found@[k]).store_id == found@[p as int].store_id
        },
{
    let mut stores: Vec<ProductStore> = Vec::new();
    let mut i: usize = 0;
    while i < found.len()
        invariant
            i <= found.len(),
            stores@ =~= stores_of(found@.subrange(0, i as int)),
        decreases found.len() - i,
    {
        stores.push(ProductStore { id: found[i].id, store_id: found[i].store_id });
        i = i + 1;
        assert(stores@ =~= stores_of(found@.subrange(0, i as int)));
    }
    assert(found@.subrange(0, found@.len() as int) =~= found@);
    let outcome = check_products(requested, &stores);
    proof {
        if outcome is Ok {
            let p = outcome->Ok_0 as int;
            assert(stores@[p].id == found@[p].id);
            assert forall|k: int| 0 <= k < found@.len() implies (#[trigger] found@[k]).store_id
                == found@[p].store_id by {
                assert(stores@[k].store_id == found@[k].store_id);
                assert(stores@[p].store_id == found@[p].store_id);
            }
        }
    }
    outcome
}

/// The customer the session is for, or the failure naming the customer that was not found.
pub fn require_customer<T>(customer: Option<T>, customer_id: u128) -> (found: Result<T, Failure>)
    ensures
        match customer {
            Some(c) => found == Ok::<T, Failure>(c),
            None => found matches Err(f) && is_failure(
                f,
                FailureReason::NOT_FOUND,
                id_message("The customer '"@, customer_id, "' could not be found"@),
            ),
        },
{
    require_found(customer, "The customer '", customer_id, "' could not be found")
}

/// The message for an email that contradicts the customer's.
pub open spec fn email_mismatch_message(customer_id: u128) -> Seq<char> {
    "The 'customer_email' argument does not match the email of the customer '"@ + uuid_text_of(customer_id) + "'"@
}

/// A given email must be the customer's own.
pub fn check_customer_email(customer_id: u128, given_email: &Option<String>, customer_email: &String) -> (checked: Result<(), Failure>)
    ensures
        match given_email {
            Some(e) => if e@ == customer_email@ {
                checked is Ok
            } else {
                checked matches Err(f) && is_failure(f, FailureReason::CONFLICT, email_mismatch_message(customer_id))
            },
            None => checked is Ok,
        },
{
    match given_email {
        Some(e) => {
            if e.eq(customer_email) {
                Ok(())
            } else {
                let message = String::from_str("The 'customer_email' argument does not match the email of the customer '").concat(
                    uuid_text(customer_id).as_str(),
                ).concat("'");
                Err(Failure::with_message(FailureReason::CONFLICT, message))
            }
        },
        None => Ok(()),
    }
}

/// The prefix of a checkout session's client secret.
pub open spec fn session_secret_prefix() -> Seq<char> {
    "starfish_cs_"@
}

/// A new client secret for a checkout session, or `None` where the system gave no
/// random bytes.
pub fn new_client_secret() -> (secret: Option<String>)
    ensures
        secret matches Some(s) ==> exists|random: Seq<u8>|
            random.len() == SECRET_BYTES && s@ == #[trigger] client_secret_of(session_secret_prefix(), random),
{
    let secret = create_client_secret::execute("starfish_cs_");
    proof {
        if secret is Some {
            let s = secret->0;
            let random = choose|random: Seq<u8>|
                random.len() == SECRET_BYTES && s@ == #[trigger] client_secret_of("starfish_cs_"@, random);
            assert(client_secret_of(session_secret_prefix(), random) == s@);
        }
    }
    secret
}

/// A checkout session whose products have passed the check: the row of the first
/// requested product, and the customer and email the request names. Where a customer
/// is named, the next step looks it up in the product's store.
pub struct CheckoutSessionDraft {
    pub product: ProductPrice,
    pub customer_id: Option<u128>,
    pub customer_email: Option<String>,
}

/// The first step: the product check. Its failures come first, in the order the
/// check gives them (a missing product, then products of different stores); on
/// success the draft holds the first requested product's row, whose store and price
/// make the session, and the customer and email as requested.
pub fn start_checkout_session(
    requested: &Vec<u128>,
    found: &Vec<ProductPrice>,
    customer_id: Option<u128>,
    customer_email: Option<String>,
) -> (draft: Result<CheckoutSessionDraft, Failure>)
    requires
        check_is_defined(requested@, stores_of(found@)),
    ensures
        match draft {
            Ok(d) => {
                &&& exists|p: usize|
                    p < found@.len() && #[trigger] product_check_outcome(
                        requested@,
                        stores_of(found@),
                        Ok::<usize, Failure>(p),
                    ) && d.product == found@[p as int]
                &&& d.product.id == requested@[0]
                &&& forall|k: int| 0 <= k < found@.len() ==> (#[trigger] found@[k]).store_id == d.product.store_id
                &&& d.customer_id == customer_id
                &&& d.customer_email == customer_email
            },
            Err(f) => product_check_outcome(requested@, stores_of(found@), Err::<usize, Failure>(f)),
        },
{
    match choose_product(requested, found) {
        Ok(p) => {
            let product = ProductPrice { id: found[p].id, store_id: found[p].store_id, price_amount: found[p].price_amount };
            Ok(CheckoutSessionDraft { product, customer_id, customer_email })
        },
        Err(f) => Err(f),
    }
}

/// The second step, given the email of the named customer as the lookup in the
/// draft's store found it (`None` where it found none; ignored where no customer is
/// named): an unknown customer fails, then a given email that is not the customer's.
pub fn check_draft_customer(draft: &CheckoutSessionDraft, customer: Option<String>) -> (checked: Result<(), Failure>)
    ensures
        match draft.customer_id {
            None => checked is Ok,
            Some(id) => match customer {
                None => checked matches Err(f) && is_failure(
                    f,
                    FailureReason::NOT_FOUND,
                    id_message("The customer '"@, id, "' could not be found"@),
                ),
                Some(email) => match draft.customer_email {
                    Some(e) => if e@ == email@ {
                        checked is Ok
                    } else {
                        checked matches Err(f) && is_failure(f, FailureReason::CONFLICT, email_mismatch_message(id))
                    },
                    None => checked is Ok,
                },
            },
        },
{
    match draft.customer_id {
        None => Ok(()),
        Some(id) => {
            let email = match require_customer(customer, id) {
                Ok(email) => email,
                Err(f) => return Err(f),
            };
            check_customer_email(id, &draft.customer_email, &email)
        },
    }
}

/// The values a new checkout session is inserted with.
pub struct NewCheckoutSession {
    pub store_id: u128,
    pub product_id: u128,
    pub client_secret: String,
    pub customer_id: Option<u128>,
    pub amount: i64,
    pub customer_email: Option<String>,
}

/// The last step, once the checks passed and a client secret was drawn: the session
/// belongs to the chosen product's store, is for that product at its price, and
/// carries the requested customer and email.
pub fn new_checkout_session(draft: CheckoutSessionDraft, client_secret: String) -> (session: NewCheckoutSession)
    ensures
        session.store_id == draft.product.store_id,
        session.product_id == draft.product.id,
        session.amount == draft.product.price_amount,
        session.client_secret@ == client_secret@,
        session.customer_id == draft.customer_id,
        session.customer_email == draft.customer_email,
{
    NewCheckoutSession {
        store_id: draft.product.store_id,
        product_id: draft.product.id,
        client_secret,
        customer_id: draft.customer_id,
        amount: draft.product.price_amount,
        customer_email: draft.customer_email,
    }
}

} // verus!
