//! Adding a product to a store.
use vstd::prelude::*;

verus! {

/// The product created at the payment provider: the name, and the description where one is given.
pub struct ProviderProductRequest {
    pub name: String,
    pub description: Option<String>,
}

pub fn provider_product_request(name: &String, description: &Option<String>) -> (request: ProviderProductRequest)
    ensures
        request.name@ == name@,
        request.description == *description,
{
    ProviderProductRequest { name: name.clone(), description: description.clone() }
}

/// The values a new product is inserted with.
pub struct NewProduct {
    pub stripe_id: String,
    pub store_id: u128,
    pub name: String,
    pub description: Option<String>,
}

pub fn new_product(stripe_id: String, store_id: u128, name: String, description: Option<String>) -> (product: NewProduct)
    ensures
        product.stripe_id@ == stripe_id@,
        product.store_id == store_id,
        product.name@ == name@,
        product.description == description,
{
    NewProduct { stripe_id, store_id, name, description }
}

} // verus!
