//! Creating a reusable checkout link for one or more of a store's products.
use vstd::prelude::*;
use crate::failure::Failure;
use crate::mutations::product_checks::{ProductStore, check_is_defined, check_products, product_check_outcome};
use crate::utils::create_client_secret::{self, client_secret_of, SECRET_BYTES};

verus! {

/// The prefix of a checkout link's client secret.
pub open spec fn link_secret_prefix() -> Seq<char> {
    "starfish_cl_"@
}

/// A new client secret for a checkout link, or `None` where the system gave no
/// random bytes.
pub fn new_client_secret() -> (secret: Option<String>)
    ensures
        secret matches Some(s) ==> exists|random: Seq<u8>|
            random.len() == SECRET_BYTES && s@ == #[trigger] client_secret_of(link_secret_prefix(), random),
{
    let secret = create_client_secret::execute("starfish_cl_");
    proof {
        if secret is Some {
            let s = secret->0;
            let random = choose|random: Seq<u8>|
                random.len() == SECRET_BYTES && s@ == #[trigger] client_secret_of("starfish_cl_"@, random);
            assert(client_secret_of(link_secret_prefix(), random) == s@);
        }
    }
    secret
}

/// The first step: the product check. Its failures answer first (a missing product,
/// then products of different stores); on success, the store of every requested
/// product, which the link will belong to.
pub fn checked_store(requested: &Vec<u128>, found: &Vec<ProductStore>) -> (store: Result<u128, Failure>)
    requires
        check_is_defined(requested@, found@),
    ensures
        match store {
            Ok(s) => {
                &&& exists|p: usize|
                    p < found@.len() && #[trigger] product_check_outcome(requested@, found@, Ok::<usize, Failure>(p))
                        && found@[p as int].id == requested@[0] && found@[p as int].store_id == s
                &&& forall|k: int| 0 <= k < found@.len() ==> (#[trigger] found@[k]).store_id == s
            },
            Err(f) => product_check_outcome(requested@, found@, Err::<usize, Failure>(f)),
        },
{
    match check_products(requested, found) {
        Ok(p) => Ok(found[p].store_id),
        Err(f) => Err(f),
    }
}

/// The values a new checkout link is inserted with.
pub struct NewCheckoutLink {
    pub store_id: u128,
    pub client_secret: String,
    pub label: Option<String>,
    pub success_url: Option<String>,
}

/// The new link belongs to the store of the chosen product.
pub fn new_checkout_link(
    store_id: u128,
    client_secret: String,
    label: Option<String>,
    success_url: Option<String>,
) -> (link: NewCheckoutLink)
    ensures
        link.store_id == store_id,
        link.client_secret@ == client_secret@,
        link.label == label,
        link.success_url == success_url,
{
    NewCheckoutLink { store_id, client_secret, label, success_url }
}

} // verus!
