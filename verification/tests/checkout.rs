use starfish::entities::{CheckoutSession, CheckoutSessionId, CheckoutSessionStatus, ProductId, StoreId};
use starfish::failure::FailureReason;
use starfish::mutations::confirm_checkout_session::{
    PaymentError, customer_upsert, lock_outcome, payment_failure, payment_intent_request, resolve_customer_email,
    start_confirmation,
};
use starfish::mutations::create_checkout_link;
use starfish::mutations::create_checkout_session::{
    ProductPrice, check_customer_email, check_draft_customer, choose_product, new_checkout_session, new_client_secret,
    require_customer, start_checkout_session,
};
use starfish::mutations::create_checkout_session_from_link::{
    LinkProduct, draft_from_link, first_product, product_ids, require_link,
};
use starfish::mutations::product_checks::{ProductStore, check_products};

const A: u128 = 0x0000000a_0000_0000_0000_000000000001;
const B: u128 = 0x0000000b_0000_0000_0000_000000000002;
const C: u128 = 0x0000000c_0000_0000_0000_000000000003;
const S1: u128 = 0x11;
const S2: u128 = 0x22;

fn row(id: u128, store_id: u128) -> ProductStore {
    ProductStore { id, store_id }
}

#[test]
fn products_of_one_store_pass() {
    let found = vec![row(B, S1), row(A, S1)];
    assert_eq!(check_products(&vec![A, B], &found).ok(), Some(1));
}

#[test]
fn missing_product_is_named() {
    let found = vec![row(A, S1)];
    let f = check_products(&vec![A, B, C], &found).err().unwrap();
    assert_eq!(f.reason, FailureReason::NOT_FOUND);
    assert_eq!(f.message, "The product '0000000b-0000-0000-0000-000000000002' could not be found");
}

#[test]
fn products_of_two_stores_conflict() {
    let found = vec![row(A, S1), row(B, S1), row(C, S2)];
    let f = check_products(&vec![B, A, C], &found).err().unwrap();
    assert_eq!(f.reason, FailureReason::CONFLICT);
    assert_eq!(
        f.message,
        "The products '0000000b-0000-0000-0000-000000000002' and '0000000c-0000-0000-0000-000000000003' are from different stores"
    );
}

#[test]
fn chosen_product_decides_the_store() {
    let found = vec![row(B, S2), row(A, S1)];
    let f = check_products(&vec![A, B], &found).err().unwrap();
    assert_eq!(f.reason, FailureReason::CONFLICT);
    assert!(f.message.starts_with("The products '0000000a-"));
    assert!(f.message.contains("and '0000000b-"));
}

#[test]
fn session_uses_price_of_first_requested_product() {
    let found = vec![
        ProductPrice { id: B, store_id: S1, price_amount: 700 },
        ProductPrice { id: A, store_id: S1, price_amount: 500 },
    ];
    assert_eq!(choose_product(&vec![A, B], &found).unwrap(), 1);
    let draft = start_checkout_session(&vec![A, B], &found, Some(C), None).unwrap();
    assert!(check_draft_customer(&draft, Some("a@b.c".to_string())).is_ok());
    let s = new_checkout_session(draft, "sec".to_string());
    assert_eq!((s.store_id, s.product_id, s.amount), (S1, A, 500));
    assert_eq!(s.customer_id, Some(C));
    assert_eq!(s.customer_email, None);
    assert_eq!(s.client_secret, "sec");
}

#[test]
fn session_checks_fail_in_order() {
    let found = vec![
        ProductPrice { id: A, store_id: S1, price_amount: 500 },
        ProductPrice { id: B, store_id: S2, price_amount: 700 },
    ];
    let f = start_checkout_session(&vec![A, B, C], &found, Some(C), None).err().unwrap();
    assert_eq!(f.reason, FailureReason::NOT_FOUND);
    assert_eq!(f.message, "The product '0000000c-0000-0000-0000-000000000003' could not be found");
    let f = start_checkout_session(&vec![A, B], &found, Some(C), None).err().unwrap();
    assert_eq!(f.reason, FailureReason::CONFLICT);
    let same = vec![ProductPrice { id: A, store_id: S1, price_amount: 500 }];
    let draft = start_checkout_session(&vec![A], &same, Some(C), Some("x@b.c".to_string())).unwrap();
    let f = check_draft_customer(&draft, None).err().unwrap();
    assert_eq!(f.reason, FailureReason::NOT_FOUND);
    assert_eq!(f.message, "The customer '0000000c-0000-0000-0000-000000000003' could not be found");
    let f = check_draft_customer(&draft, Some("a@b.c".to_string())).err().unwrap();
    assert_eq!(f.reason, FailureReason::CONFLICT);
    assert!(check_draft_customer(&draft, Some("x@b.c".to_string())).is_ok());
    let anonymous = start_checkout_session(&vec![A], &same, None, Some("x@b.c".to_string())).unwrap();
    assert!(check_draft_customer(&anonymous, None).is_ok());
}

#[test]
fn customer_email_must_match() {
    assert!(check_customer_email(C, &None, &"a@b.c".to_string()).is_ok());
    assert!(check_customer_email(C, &Some("a@b.c".to_string()), &"a@b.c".to_string()).is_ok());
    let f = check_customer_email(C, &Some("x@b.c".to_string()), &"a@b.c".to_string()).err().unwrap();
    assert_eq!(f.reason, FailureReason::CONFLICT);
    assert_eq!(
        f.message,
        "The 'customer_email' argument does not match the email of the customer '0000000c-0000-0000-0000-000000000003'"
    );
    let f = require_customer::<()>(None, C).err().unwrap();
    assert_eq!(f.message, "The customer '0000000c-0000-0000-0000-000000000003' could not be found");
}

#[test]
fn new_secrets_carry_their_prefixes() {
    assert!(new_client_secret().unwrap().starts_with("starfish_cs_"));
    assert!(create_checkout_link::new_client_secret().unwrap().starts_with("starfish_cl_"));
    let link = create_checkout_link::new_checkout_link(S1, "s".to_string(), Some("l".to_string()), None);
    assert_eq!(link.store_id, S1);
    assert_eq!(link.label.as_deref(), Some("l"));
}

#[test]
fn link_session_uses_first_product() {
    let products = vec![LinkProduct { id: A, price_amount: 10 }, LinkProduct { id: B, price_amount: 20 }];
    assert_eq!(first_product(&products).ok(), Some(0));
    assert_eq!(product_ids(&products), vec![A, B]);
    let f = first_product(&vec![]).err().unwrap();
    assert_eq!(f.reason, FailureReason::INTERNAL_SERVER_ERROR);
    let f = require_link::<()>(None, "starfish_cl_xyz").err().unwrap();
    assert_eq!(f.reason, FailureReason::NOT_FOUND);
    assert_eq!(f.message, "The checkout link 'starfish_cl_xyz' could not be found.");
}

fn session(email: Option<&str>) -> CheckoutSession {
    CheckoutSession {
        id: CheckoutSessionId(A),
        store_id: StoreId(B),
        product_id: ProductId(C),
        customer_id: None,
        customer_email: email.map(|e| e.to_string()),
        client_secret: "starfish_cs_x".to_string(),
        amount: 1000,
        tax_amount: Some(80),
        discount_amount: 100,
        net_amount: 900,
        total_amount: 980,
        status: CheckoutSessionStatus::Open,
        url: "https://shop/checkout/starfish_cs_x".to_string(),
        success_url: None,
        created_at: 0,
        modified_at: None,
    }
}

#[test]
fn lock_outcomes() {
    let s = lock_outcome(Ok(Some(session(None)))).ok().unwrap();
    assert_eq!(s.total_amount, 980);
    let f = lock_outcome(Ok(None)).err().unwrap();
    assert_eq!((f.reason, f.message.as_str()), (FailureReason::NOT_FOUND, "The checkout session could not be found"));
    let f = lock_outcome(Err(Some("55P03".to_string()))).err().unwrap();
    assert_eq!((f.reason, f.message.as_str()), (FailureReason::CONFLICT, "The checkout session is being processed"));
    let f = lock_outcome(Err(Some("23505".to_string()))).err().unwrap();
    assert_eq!(f.reason, FailureReason::INTERNAL_SERVER_ERROR);
    let f = lock_outcome(Err(None)).err().unwrap();
    assert_eq!(f.reason, FailureReason::INTERNAL_SERVER_ERROR);
}

#[test]
fn customer_email_resolution() {
    let some = |s: &str| Some(s.to_string());
    assert_eq!(resolve_customer_email(some("a@x"), some("a@x")).ok(), some("a@x"));
    assert_eq!(resolve_customer_email(some("a@x"), None).ok(), some("a@x"));
    assert_eq!(resolve_customer_email(None, some("b@x")).ok(), some("b@x"));
    let f = resolve_customer_email(some("a@x"), some("b@x")).err().unwrap();
    assert_eq!((f.reason, f.message.as_str()), (FailureReason::UNPROCESSABLE_ENTITY, "The customer email is immutable once set"));
    let f = resolve_customer_email(None, None).err().unwrap();
    assert_eq!(f.reason, FailureReason::UNPROCESSABLE_ENTITY);
    assert_eq!(
        f.message,
        "The argument 'customer_email' is required since the checkout session is not associated with a customer"
    );
}

#[test]
fn payment_request_and_failures() {
    let r = payment_intent_request(&session(None), "ctoken".to_string());
    assert_eq!(r.amount, 980);
    assert_eq!(r.currency, "usd");
    assert_eq!(r.confirmation_token, "ctoken");
    assert!(r.confirm);
    assert_eq!(
        r.metadata,
        vec![
            ("store_id".to_string(), "0000000b-0000-0000-0000-000000000002".to_string()),
            ("checkout_session_id".to_string(), "0000000a-0000-0000-0000-000000000001".to_string()),
        ]
    );
    let f = payment_failure(PaymentError::Provider {
        decline_code: Some("insufficient_funds".to_string()),
        message: Some("Your card has insufficient funds.".to_string()),
    });
    assert_eq!((f.reason, f.message.as_str()), (FailureReason::BAD_REQUEST, "Your card has insufficient funds."));
    let f = payment_failure(PaymentError::Provider { decline_code: Some("x".to_string()), message: None });
    assert_eq!(f.message, "The checkout session could not be processed");
    let f = payment_failure(PaymentError::Provider { decline_code: None, message: Some("m".to_string()) });
    assert_eq!(f.reason, FailureReason::INTERNAL_SERVER_ERROR);
    let f = payment_failure(PaymentError::Other);
    assert_eq!(f.reason, FailureReason::INTERNAL_SERVER_ERROR);
}

#[test]
fn customer_upsert_gets_avatar() {
    let c = customer_upsert(B, "test@example.com".to_string());
    assert_eq!(c.store_id, B);
    assert_eq!(c.avatar_url, "https://www.gravatar.com/avatar/55502f40dc8b7c769880b10874abc9d0?d=404");
}

#[test]
fn link_store_is_that_of_every_product() {
    let found = vec![row(B, S1), row(A, S1)];
    assert_eq!(create_checkout_link::checked_store(&vec![A, B], &found).ok(), Some(S1));
    let f = create_checkout_link::checked_store(&vec![A, B], &vec![row(A, S1), row(B, S2)]).err().unwrap();
    assert_eq!(f.reason, FailureReason::CONFLICT);
    let f = create_checkout_link::checked_store(&vec![A, C], &vec![row(A, S1)]).err().unwrap();
    assert_eq!(f.reason, FailureReason::NOT_FOUND);
}

#[test]
fn link_session_draft_and_values() {
    let products = vec![LinkProduct { id: A, price_amount: 10 }, LinkProduct { id: B, price_amount: 20 }];
    let draft = draft_from_link(S2, &products).ok().unwrap();
    let s = new_checkout_session(draft, "starfish_cs_y".to_string());
    assert_eq!((s.store_id, s.product_id, s.amount), (S2, A, 10));
    assert_eq!((s.customer_id, s.customer_email), (None, None));
    let f = draft_from_link(S2, &vec![]).err().unwrap();
    assert_eq!(f.reason, FailureReason::INTERNAL_SERVER_ERROR);
}

#[test]
fn confirmation_checks_lock_then_email() {
    let f = start_confirmation(Err(Some("55P03".to_string())), None).err().unwrap();
    assert_eq!(f.reason, FailureReason::CONFLICT);
    let f = start_confirmation(Ok(None), Some("a@x".to_string())).err().unwrap();
    assert_eq!(f.reason, FailureReason::NOT_FOUND);
    let f = start_confirmation(Ok(Some(session(Some("a@x")))), Some("b@x".to_string())).err().unwrap();
    assert_eq!(f.message, "The customer email is immutable once set");
    let c = start_confirmation(Ok(Some(session(None))), Some("test@example.com".to_string())).ok().unwrap();
    assert_eq!(c.session.total_amount, 980);
    assert_eq!((c.customer.store_id, c.customer.email.as_str()), (B, "test@example.com"));
    assert_eq!(c.customer.avatar_url, "https://www.gravatar.com/avatar/55502f40dc8b7c769880b10874abc9d0?d=404");
}
