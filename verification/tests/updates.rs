use starfish::entities::{CheckoutLink, CheckoutLinkId, StoreId};
use starfish::patch::{Assignment, FieldPatch, SqlValue, UpdateDecision};
use starfish::mutations::{update_checkout_link, update_checkout_session, update_customer, update_product, update_store};
use starfish::failure::FailureReason;

fn describe(plan: &[Assignment]) -> Vec<String> {
    plan.iter()
        .map(|a| match &a.value {
            SqlValue::Text(t) => format!("{}={}", a.column, t),
            SqlValue::Bool(b) => format!("{}={}", a.column, b),
            SqlValue::Now => format!("{}=now", a.column),
        })
        .collect()
}

#[test]
fn empty_update_changes_nothing() {
    assert!(update_customer::plan_update(None, FieldPatch::Undefined).is_none());
    assert!(update_product::plan_update(None, FieldPatch::Undefined, None).is_none());
    assert!(update_store::plan_update(None, FieldPatch::Undefined, FieldPatch::Undefined, FieldPatch::Undefined).is_none());
    assert!(update_checkout_link::plan_update(FieldPatch::Undefined, FieldPatch::Undefined).is_none());
}

#[test]
fn customer_update_sets_given_fields() {
    let plan = update_customer::plan_update(Some("a@x".to_string()), FieldPatch::Null).unwrap();
    assert_eq!(describe(&plan), vec!["email=a@x", "modified_at=now"]);
    let plan = update_customer::plan_update(None, FieldPatch::Value("Ann".to_string())).unwrap();
    assert_eq!(describe(&plan), vec!["name=Ann", "modified_at=now"]);
}

#[test]
fn product_update_sets_given_fields() {
    let plan = update_product::plan_update(Some("Mug".to_string()), FieldPatch::Undefined, Some(true)).unwrap();
    assert_eq!(describe(&plan), vec!["name=Mug", "archived=true", "modified_at=now"]);
    let plan = update_product::plan_update(None, FieldPatch::Null, None).unwrap();
    assert_eq!(describe(&plan), vec!["modified_at=now"]);
}

#[test]
fn store_update_sets_given_fields() {
    let plan = update_store::plan_update(
        None,
        FieldPatch::Value("s@x".to_string()),
        FieldPatch::Null,
        FieldPatch::Value("https://a".to_string()),
    )
    .unwrap();
    assert_eq!(describe(&plan), vec!["email=s@x", "avatar_url=https://a", "modified_at=now"]);
}

#[test]
fn store_lookup_checks_membership() {
    let f = update_store::check_store::<()>(None, None, "shop").err().unwrap();
    assert_eq!((f.reason, f.message.as_str()), (FailureReason::NOT_FOUND, "The store 'shop' could not be found"));
    let f = update_store::check_store(Some(1), Some(false), "shop").err().unwrap();
    assert_eq!((f.reason, f.message.as_str()), (FailureReason::FORBIDDEN, "You are not a member of this store"));
    assert_eq!(update_store::check_store(Some(1), Some(true), "shop").ok(), Some(1));
}

fn link() -> CheckoutLink {
    CheckoutLink {
        id: CheckoutLinkId(1),
        store_id: StoreId(2),
        client_secret: "starfish_cl_x".to_string(),
        label: Some("Old".to_string()),
        success_url: Some("https://old".to_string()),
        url: "https://shop/starfish_cl_x".to_string(),
        created_at: 0,
        modified_at: None,
    }
}

#[test]
fn link_update_plan_and_merged_fields() {
    let plan = update_checkout_link::plan_update(FieldPatch::Value("New".to_string()), FieldPatch::Undefined).unwrap();
    assert_eq!(describe(&plan), vec!["label=New", "modified_at=now"]);
    let (label, success_url) =
        update_checkout_link::updated_fields(&link(), FieldPatch::Undefined, FieldPatch::Null);
    assert_eq!(label.as_deref(), Some("Old"));
    assert_eq!(success_url.as_deref(), Some("https://old"));
    let (label, _) = update_checkout_link::updated_fields(&link(), FieldPatch::Value("New".to_string()), FieldPatch::Undefined);
    assert_eq!(label.as_deref(), Some("New"));
    let f = update_checkout_link::require_link(None, 1).err().unwrap();
    assert_eq!(f.message, "The checkout link '00000000-0000-0000-0000-000000000001' could not be found");
}

#[test]
fn session_product_switch() {
    assert_eq!(update_checkout_session::product_change(5, Some(6)), Some(6));
    assert_eq!(update_checkout_session::product_change(5, Some(5)), None);
    assert_eq!(update_checkout_session::product_change(5, None), None);
    let f = update_checkout_session::require_session_price(None, 6).err().unwrap();
    assert_eq!(f.reason, FailureReason::CONFLICT);
    assert_eq!(f.message, "The product '00000000-0000-0000-0000-000000000006' does not belong to this checkout session");
    assert_eq!(update_checkout_session::require_session_price(Some(1200), 6).ok(), Some(1200));
}

#[test]
fn update_decisions_check_then_plan() {
    let f = update_checkout_link::decide_update(None, 1, FieldPatch::Value("x".to_string()), FieldPatch::Undefined)
        .err()
        .unwrap();
    assert_eq!(f.reason, FailureReason::NOT_FOUND);
    match update_checkout_link::decide_update(Some(link()), 1, FieldPatch::Null, FieldPatch::Undefined).ok().unwrap() {
        UpdateDecision::Run(plan) => assert_eq!(describe(&plan), vec!["modified_at=now"]),
        UpdateDecision::Unchanged(_) => panic!("a null field still stamps the link"),
    }
    match update_checkout_link::decide_update(Some(link()), 1, FieldPatch::Undefined, FieldPatch::Undefined).ok().unwrap() {
        UpdateDecision::Unchanged(l) => assert_eq!(l.label.as_deref(), Some("Old")),
        UpdateDecision::Run(_) => panic!("an empty request changes nothing"),
    }
    let f = update_store::decide_update::<()>(Some(()), Some(false), "shop", Some("N".to_string()), FieldPatch::Undefined, FieldPatch::Undefined, FieldPatch::Undefined)
        .err()
        .unwrap();
    assert_eq!(f.reason, FailureReason::FORBIDDEN);
    let f = update_store::decide_update::<()>(None, None, "shop", None, FieldPatch::Undefined, FieldPatch::Undefined, FieldPatch::Undefined)
        .err()
        .unwrap();
    assert_eq!(f.reason, FailureReason::NOT_FOUND);
    let f = update_customer::decide_update(None, 7, None, FieldPatch::Undefined).err().unwrap();
    assert_eq!(f.message, "The customer '00000000-0000-0000-0000-000000000007' could not be found");
    let f = update_product::decide_update(None, 7, None, FieldPatch::Undefined, None).err().unwrap();
    assert_eq!(f.message, "The product '00000000-0000-0000-0000-000000000007' could not be found");
}
