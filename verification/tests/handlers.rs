use starfish::entities::{AccountStatus, BillingReason, CheckoutSessionStatus, OrderStatus, StoreStatus};
use starfish::event_handlers::create_order_from_checkout_session::{PaidCheckoutSession, plan_order, require_session};
use starfish::event_handlers::update_account_status::{
    AccountRequirements, is_account_active, require_account, statuses_for,
};
use starfish::failure::FailureReason;

fn paid(status: CheckoutSessionStatus, amount: i64, discount: i64) -> PaidCheckoutSession {
    PaidCheckoutSession {
        id: 1,
        store_id: 2,
        customer_id: 3,
        status,
        amount,
        tax_amount: Some(70),
        discount_amount: discount,
        store_account_id: 4,
    }
}

#[test]
fn paid_session_becomes_order_and_transactions() {
    let plan = plan_order(&paid(CheckoutSessionStatus::Confirmed, 10_000, 400)).unwrap();
    assert_eq!(plan.order.subtotal_amount, 10_000);
    assert_eq!(plan.order.discount_amount, 400);
    assert_eq!(plan.order.tax_amount, Some(70));
    assert_eq!(plan.order.platform_fee_amount, 424);
    assert!(plan.order.status == OrderStatus::Paid);
    assert!(plan.order.billing_reason == BillingReason::Purchase);
    assert_eq!((plan.order.store_id, plan.order.customer_id, plan.order.checkout_session_id), (2, 3, 1));
    assert_eq!((plan.sale.account_id, plan.sale.amount, plan.sale.incurred_amount), (4, 9_600, -424));
    assert_eq!((plan.fee.account_id, plan.fee.amount, plan.fee.incurred_amount), (4, -424, 0));
    assert_eq!(plan.balance_increase, 9_176);
    assert_eq!(plan.balance_increase, plan.sale.amount + plan.fee.amount);
}

#[test]
fn succeeded_session_is_left_alone() {
    assert!(plan_order(&paid(CheckoutSessionStatus::Succeeded, 10_000, 0)).is_none());
}

#[test]
fn payment_of_unknown_session_is_not_found() {
    let f = require_session::<()>(None).err().unwrap();
    assert_eq!(f.reason, FailureReason::NOT_FOUND);
    assert_eq!(f.message, "The checkout session could not be found");
}

#[test]
fn account_is_active_without_disabled_reason() {
    assert!(is_account_active(&Some(AccountRequirements { disabled_reason: None })));
    assert!(!is_account_active(&Some(AccountRequirements { disabled_reason: Some("requirements.past_due".to_string()) })));
    assert!(!is_account_active(&None));
    assert!(statuses_for(true) == (AccountStatus::Active, StoreStatus::Active));
    assert!(statuses_for(false) == (AccountStatus::OnboardingStarted, StoreStatus::OnboardingStarted));
}

#[test]
fn unknown_account_quotes_provider_id() {
    let f = require_account::<()>(None, "acct_123").err().unwrap();
    assert_eq!(f.message, "The account 'acct_123' could not be found");
}

#[test]
fn succeeded_session_is_left_alone_whatever_its_amounts() {
    assert!(plan_order(&paid(CheckoutSessionStatus::Succeeded, i64::MIN, i64::MAX)).is_none());
}
