use starfish::entities::{
    Balance, CustomerId, Order, OrderId, OrderStatus, BillingReason, StoreId, StoreInvite, StoreInviteId, StoreStatus,
};
use starfish::failure::FailureReason;
use starfish::guards::{require_exists, require_found, require_member};
use starfish::mutations::create_account::{StoreForAccount, check_store};
use starfish::mutations::create_customer::{check_email_available, new_customer, provider_customer_request};
use starfish::mutations::create_onboarding_link::{
    EARLIEST_SECONDS, LATEST_SECONDS, account_link_request, onboarding_link, require_account,
};
use starfish::mutations::create_product::{new_product, provider_product_request};
use starfish::mutations::create_store::check_slug_available;
use starfish::mutations::login_with_email::check_one_time_token;
use starfish::mutations::refresh_session::{check_not_revoked, require_claims};
use starfish::mutations::revoke_store_invite::{needs_revocation, require_invite};
use starfish::mutations::send_login_code::{code_expiry, expiry_from_micros, login_code_expiry, login_email};
use starfish::mutations::{delete_checkout_link, delete_customer, revoke_session};
use starfish::queries::{balance, orders, session, store_invites};
use starfish::auth::RefreshTokenClaims;

#[test]
fn membership_and_existence_guards() {
    assert!(require_member(Some(true)).is_ok());
    for answer in [Some(false), None] {
        let f = require_member(answer).err().unwrap();
        assert_eq!((f.reason, f.message.as_str()), (FailureReason::FORBIDDEN, "You are not a member of this store"));
        let f = require_exists(answer, "The x '", 16, "' y").err().unwrap();
        assert_eq!(f.message, "The x '00000000-0000-0000-0000-000000000010' y");
    }
    assert_eq!(require_found(Some(7), "p", 1, "s").ok(), Some(7));
}

#[test]
fn account_only_for_new_stores() {
    let f = check_store(1, None).err().unwrap();
    assert_eq!(f.message, "The store '00000000-0000-0000-0000-000000000001' could not be found");
    let f = check_store(1, Some(StoreForAccount { status: StoreStatus::Created, store_member_exists: None })).err().unwrap();
    assert_eq!(f.reason, FailureReason::FORBIDDEN);
    let f = check_store(1, Some(StoreForAccount { status: StoreStatus::Active, store_member_exists: Some(true) })).err().unwrap();
    assert_eq!((f.reason, f.message.as_str()), (FailureReason::CONFLICT, "This store already has an account"));
    assert!(check_store(1, Some(StoreForAccount { status: StoreStatus::Created, store_member_exists: Some(true) })).is_ok());
}

#[test]
fn customers_and_products() {
    let f = check_email_available(Some(true)).err().unwrap();
    assert_eq!((f.reason, f.message.as_str()), (FailureReason::CONFLICT, "There is a customer with the same email"));
    assert!(check_email_available(Some(false)).is_ok());
    assert!(check_email_available(None).is_ok());
    let r = provider_customer_request(&"a@x".to_string(), &None);
    assert_eq!((r.email.as_str(), r.name), ("a@x", None));
    let c = new_customer("cus_1".to_string(), 9, "test@example.com".to_string(), Some("T".to_string()));
    assert_eq!(c.avatar_url, "https://www.gravatar.com/avatar/55502f40dc8b7c769880b10874abc9d0?d=404");
    assert_eq!((c.stripe_id.as_str(), c.store_id), ("cus_1", 9));
    let p = provider_product_request(&"Mug".to_string(), &Some("Blue".to_string()));
    assert_eq!(p.description.as_deref(), Some("Blue"));
    let p = new_product("prod_1".to_string(), 9, "Mug".to_string(), None);
    assert_eq!((p.name.as_str(), p.description), ("Mug", None));
}

#[test]
fn store_slug_must_be_free() {
    let f = check_slug_available(Some(true), "shop").err().unwrap();
    assert_eq!((f.reason, f.message.as_str()), (FailureReason::CONFLICT, "The slug 'shop' is already in use"));
    assert!(check_slug_available(Some(false), "shop").is_ok());
}

#[test]
fn deletions_and_revocations_need_the_row() {
    let f = delete_checkout_link::check_link(Some(false), 2).err().unwrap();
    assert_eq!(f.message, "The checkout link '00000000-0000-0000-0000-000000000002' could not be found");
    let f = delete_customer::check_customer(None, 3).err().unwrap();
    assert_eq!(f.message, "The customer '00000000-0000-0000-0000-000000000003' could not be found");
    let f = revoke_session::check_session(Some(false), 4).err().unwrap();
    assert_eq!(f.message, "The session '00000000-0000-0000-0000-000000000004' could not be found");
    assert!(revoke_session::check_session(Some(true), 4).is_ok());
    let f = require_invite(None, 5).err().unwrap();
    assert_eq!(f.message, "The store invite '00000000-0000-0000-0000-000000000005' could not be found");
}

fn invite(revoked_at: Option<i64>) -> StoreInvite {
    StoreInvite {
        id: StoreInviteId(1),
        store_id: StoreId(2),
        email: "i@x".to_string(),
        accepted_at: None,
        revoked_at,
        created_at: 10,
        modified_at: None,
    }
}

#[test]
fn only_live_invites_are_revoked() {
    assert!(needs_revocation(&invite(None)));
    assert!(!needs_revocation(&invite(Some(20))));
}

#[test]
fn login_token_checks() {
    assert!(check_one_time_token(Some(true)).is_ok());
    let f = check_one_time_token(None).err().unwrap();
    assert_eq!((f.reason, f.message.as_str()), (FailureReason::NOT_FOUND, "There's no matching one-time token"));
    let f = require_claims(None).err().unwrap();
    assert_eq!((f.reason, f.message.as_str()), (FailureReason::UNAUTHORIZED, "The refresh token is invalid"));
    let c = require_claims(Some(RefreshTokenClaims::new_at(8, 0))).ok().unwrap();
    assert_eq!(c.refresh_token_id, 8);
    assert!(check_not_revoked(false, false).is_ok());
    for (a, b) in [(true, false), (false, true), (true, true)] {
        let f = check_not_revoked(a, b).err().unwrap();
        assert_eq!((f.reason, f.message.as_str()), (FailureReason::FORBIDDEN, "The refresh token was revoked"));
    }
}

#[test]
fn login_email_and_expiry() {
    let m = login_email("a@x".to_string(), "ABCDE12345");
    assert_eq!(m.from, "Starfish <starfish@dmelo.sh>");
    assert_eq!(m.to, vec!["a@x".to_string()]);
    assert_eq!(m.subject, "Login to Starfish");
    assert_eq!(m.html, "Your one-time token is ABCDE12345.");
    assert_eq!(code_expiry(1_000), 300_001_000);
    assert!(login_code_expiry().expect("the clock reads after 1970") > 1_600_000_000_000_000 + 300_000_000);
}

#[test]
fn onboarding_links() {
    let r = account_link_request("acct_1".to_string(), &"https://shop".to_string());
    assert_eq!((r.account.as_str(), r.refresh_url.as_str(), r.return_url.as_str()), ("acct_1", "https://shop", "https://shop"));
    let l = onboarding_link("https://connect".to_string(), 1_700_000_300, 1_700_000_000).ok().unwrap();
    assert_eq!((l.expires_at, l.created_at), (1_700_000_300_000_000, 1_700_000_000_000_000));
    let f = onboarding_link("u".to_string(), i64::MAX, 0).err().unwrap();
    assert_eq!(f.reason, FailureReason::INTERNAL_SERVER_ERROR);
    let f = require_account::<()>(None, 6).err().unwrap();
    assert_eq!(f.message, "The account '00000000-0000-0000-0000-000000000006' could not be found");
}

fn order(id: u128) -> Order {
    Order {
        id: OrderId(id),
        store_id: StoreId(1),
        customer_id: CustomerId(2),
        checkout_session_id: None,
        status: OrderStatus::Paid,
        subtotal_amount: 100,
        discount_amount: 0,
        net_amount: 100,
        tax_amount: 0,
        total_amount: 100,
        platform_fee_amount: 40,
        billing_reason: BillingReason::Purchase,
        created_at: 0,
        modified_at: None,
    }
}

#[test]
fn queries_build_connections() {
    let page = orders::connection(vec![order(3), order(2)]);
    assert_eq!(page.nodes.len(), 2);
    assert_eq!(page.edges.iter().map(|e| e.cursor.0).collect::<Vec<_>>(), vec![3, 2]);
    assert_eq!(page.edges[1].node.id.0, 2);
    let f = orders::check_store(None, 7).err().unwrap();
    assert_eq!(f.message, "The store '00000000-0000-0000-0000-000000000007' could not be found");
    let f = orders::check_store(Some(None), 7).err().unwrap();
    assert_eq!(f.reason, FailureReason::FORBIDDEN);
    assert!(orders::check_store(Some(Some(true)), 7).is_ok());
    let page = store_invites::connection(vec![invite(None)]);
    assert_eq!(page.edges[0].cursor.0, 1);
    assert_eq!(page.edges[0].node.email, "i@x");
    assert!(store_invites::revoked_filter(Some(true)));
    assert!(!store_invites::revoked_filter(None));
    let b = balance::require_balance(Some(Balance { amount: 5 }), 1).ok().unwrap();
    assert_eq!(b.amount, 5);
    let f = balance::require_balance(None, 1).err().unwrap();
    assert_eq!(f.message, "The account '00000000-0000-0000-0000-000000000001' could not be found");
    let f = session::require_session(None, 1).err().unwrap();
    assert_eq!(f.message, "The session '00000000-0000-0000-0000-000000000001' could not be found");
}

#[test]
fn onboarding_link_accepts_exactly_chrono_range() {
    let l = onboarding_link("u".to_string(), LATEST_SECONDS, EARLIEST_SECONDS).ok().unwrap();
    assert_eq!((l.expires_at, l.created_at), (LATEST_SECONDS * 1_000_000, EARLIEST_SECONDS * 1_000_000));
    assert!(onboarding_link("u".to_string(), LATEST_SECONDS + 1, 0).is_err());
    assert!(onboarding_link("u".to_string(), 0, EARLIEST_SECONDS - 1).is_err());
}

#[test]
fn code_expiry_from_clock_reading() {
    assert_eq!(expiry_from_micros(Some(1_700_000_000_000_000)), Some(1_700_000_300_000_000));
    assert_eq!(expiry_from_micros(Some(0)), Some(300_000_000));
    assert_eq!(expiry_from_micros(Some(8_999_999_999_700_000_000)), Some(9_000_000_000_000_000_000));
    assert_eq!(expiry_from_micros(Some(8_999_999_999_700_000_001)), None);
    assert_eq!(expiry_from_micros(None), None);
}
