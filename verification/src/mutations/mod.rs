pub mod product_checks;
pub mod create_checkout_session;
pub mod create_checkout_link;
pub mod create_checkout_session_from_link;
pub mod confirm_checkout_session;
pub mod create_account;
pub mod create_customer;
pub mod create_product;
pub mod delete_checkout_link;
pub mod login_with_email;
pub mod revoke_session;
pub mod revoke_store_invite;
pub mod update_checkout_link;
pub mod update_checkout_session;
pub mod update_customer;
pub mod update_product;
pub mod update_store;
pub mod create_onboarding_link;
pub mod create_store;
pub mod delete_customer;
pub mod refresh_session;
pub mod send_login_code;

use vstd::prelude::*;

verus! {

/// The root of the service's mutations.
pub struct Mutation;

} // verus!
