//! Adding a customer to a store.
use vstd::prelude::*;
use vstd::string::*;
use crate::failure::{Failure, FailureReason, is_failure};
use crate::utils::create_avatar_url::{self, avatar_url_of};

verus! {

/// A store keeps one customer per email address among those not deleted.
pub fn check_email_available(customer_with_same_email: Option<bool>) -> (checked: Result<(), Failure>)
    ensures
        customer_with_same_email == Some(true) ==> (checked matches Err(f) && is_failure(
            f,
            FailureReason::CONFLICT,
            "There is a customer with the same email"@,
        )),
        customer_with_same_email != Some(true) ==> checked is Ok,
{
    match customer_with_same_email {
        Some(true) => Err(Failure::with_message(FailureReason::CONFLICT, String::from_str("There is a customer with the same email"))),
        _ => Ok(()),
    }
}

/// The customer created at the payment provider: the email, and the name where one is given.
pub struct ProviderCustomerRequest {
    pub email: String,
    pub name: Option<String>,
}

pub fn provider_customer_request(email: &String, name: &Option<String>) -> (request: ProviderCustomerRequest)
    ensures
        request.email@ == email@,
        request.name == *name,
{
    ProviderCustomerRequest { email: email.clone(), name: name.clone() }
}

/// The values a new customer is inserted with.
pub struct NewCustomer {
    pub stripe_id: String,
    pub store_id: u128,
    pub email: String,
    pub name: Option<String>,
    pub avatar_url: String,
}

/// The new customer, with the avatar of its email.
pub fn new_customer(stripe_id: String, store_id: u128, email: String, name: Option<String>) -> (customer: NewCustomer)
    ensures
        customer.stripe_id@ == stripe_id@,
        customer.store_id == store_id,
        customer.email@ == email@,
        customer.name == name,
        customer.avatar_url@ == avatar_url_of(email@),
{
    let avatar_url = create_avatar_url::execute(email.as_str());
    NewCustomer { stripe_id, store_id, email, name, avatar_url }
}

} // verus!
