//! Turning a paid checkout session into an order, its transactions, and the money
//! credited to the store.
use vstd::prelude::*;
use vstd::string::*;
use crate::entities::{BillingReason, CheckoutSessionStatus, OrderStatus};
use crate::failure::{Failure, FailureReason, is_failure};
use crate::utils::calculate_platform_fee::{self, platform_fee};

verus! {

/// The checkout session a payment is for, as the handler reads it.
pub struct PaidCheckoutSession {
    pub id: u128,
    pub store_id: u128,
    pub customer_id: u128,
    pub status: CheckoutSessionStatus,
    pub amount: i64,
    pub tax_amount: Option<i64>,
    pub discount_amount: i64,
    pub store_account_id: u128,
}

/// The session a payment names, or the failure for a payment of no known session.
pub fn require_session<T>(session: Option<T>) -> (found: Result<T, Failure>)
    ensures
        match session {
            Some(s) => found == Ok::<T, Failure>(s),
            None => found matches Err(f) && is_failure(
                f,
                FailureReason::NOT_FOUND,
                "The checkout session could not be found"@,
            ),
        },
{
    match session {
        Some(s) => Ok(s),
        None => Err(Failure::with_message(FailureReason::NOT_FOUND, String::from_str("The checkout session could not be found"))),
    }
}

/// The order recorded for a paid session.
pub struct NewOrder {
    pub store_id: u128,
    pub customer_id: u128,
    pub checkout_session_id: u128,
    pub status: OrderStatus,
    pub subtotal_amount: i64,
    pub discount_amount: i64,
    pub tax_amount: Option<i64>,
    pub platform_fee_amount: i64,
    pub billing_reason: BillingReason,
}

/// A movement of money on the store's account: `amount` is what it adds to the
/// balance, `incurred_amount` what it brings with it.
pub struct NewTransaction {
    pub account_id: u128,
    pub amount: i64,
    pub incurred_amount: i64,
}

/// Everything a paid session gives rise to: the order, the sale (the net amount,
/// bringing the fee with it), the fee itself, and the increase of the balance.
pub struct OrderPlan {
    pub order: NewOrder,
    pub sale: NewTransaction,
    pub fee: NewTransaction,
    pub balance_increase: i64,
}

/// The session's amount after its discount.
pub open spec fn net_amount_of(session: PaidCheckoutSession) -> int {
    session.amount - session.discount_amount
}

/// The amounts of a session for which the handler's arithmetic stays within `i64`.
pub open spec fn amounts_fit(session: PaidCheckoutSession) -> bool {
    let net = net_amount_of(session);
    &&& i64::MIN <= net <= i64::MAX
    &&& i64::MIN <= net - platform_fee(net) <= i64::MAX
}

/// Whether the session's amounts keep the handler's arithmetic within `i64`.
pub fn amounts_within_range(session: &PaidCheckoutSession) -> (fits: bool)
    ensures
        fits == amounts_fit(*session),
{
    let net = session.amount as i128 - session.discount_amount as i128;
    if net < i64::MIN as i128 || net > i64::MAX as i128 {
        return false;
    }
    let fee = calculate_platform_fee::execute(net as i64);
    let rest = net - fee as i128;
    rest >= i64::MIN as i128 && rest <= i64::MAX as i128
}

/// The plan for a session that has not succeeded yet, stated field by field.
pub open spec fn is_plan_for(plan: OrderPlan, session: PaidCheckoutSession) -> bool {
    let net = net_amount_of(session);
    let fee = platform_fee(net);
    &&& plan.order.store_id == session.store_id
    &&& plan.order.customer_id == session.customer_id
    &&& plan.order.checkout_session_id == session.id
    &&& plan.order.status == OrderStatus::Paid
    &&& plan.order.subtotal_amount == session.amount
    &&& plan.order.discount_amount == session.discount_amount
    &&& plan.order.tax_amount == session.tax_amount
    &&& plan.order.platform_fee_amount == fee
    &&& plan.order.billing_reason == BillingReason::Purchase
    &&& plan.sale.account_id == session.store_account_id
    &&& plan.sale.amount == net
    &&& plan.sale.incurred_amount == -fee
    &&& plan.fee.account_id == session.store_account_id
    &&& plan.fee.amount == -fee
    &&& plan.fee.incurred_amount == 0
    &&& plan.balance_increase == net - fee
}

/// What a payment of the session leads to: nothing for a session that already
/// succeeded (a repeated notice is ignored), otherwise the order plan.
pub fn plan_order(session: &PaidCheckoutSession) -> (plan: Option<OrderPlan>)
    requires
        session.status != CheckoutSessionStatus::Succeeded ==> amounts_fit(*session),
    ensures
        session.status == CheckoutSessionStatus::Succeeded ==> plan is None,
        session.status != CheckoutSessionStatus::Succeeded ==> (plan matches Some(p) && is_plan_for(p, *session)),
        plan matches Some(p) ==> {
            &&& p.order.platform_fee_amount == platform_fee(session.amount - session.discount_amount)
            &&& p.balance_increase == session.amount - session.discount_amount - platform_fee(
                session.amount - session.discount_amount,
            )
        },
{
    if session.status == CheckoutSessionStatus::Succeeded {
        return None;
    }
    let net_amount = session.amount - session.discount_amount;
    let platform_fee_amount = calculate_platform_fee::execute(net_amount);
    Some(OrderPlan {
        order: NewOrder {
            store_id: session.store_id,
            customer_id: session.customer_id,
            checkout_session_id: session.id,
            status: OrderStatus::Paid,
            subtotal_amount: session.amount,
            discount_amount: session.discount_amount,
            tax_amount: session.tax_amount,
            platform_fee_amount,
            billing_reason: BillingReason::Purchase,
        },
        sale: NewTransaction {
            account_id: session.store_account_id,
            amount: net_amount,
            incurred_amount: -platform_fee_amount,
        },
        fee: NewTransaction { account_id: session.store_account_id, amount: -platform_fee_amount, incurred_amount: 0 },
        balance_increase: net_amount - platform_fee_amount,
    })
}

/// The platform fee of an order is the fee on the session's amount after its discount,
/// and the tax takes no part in it: the sale brings that fee with it, the fee
/// transaction takes it off, and the balance grows by the net amount less the fee.
pub proof fn lemma_fee_on_net_amount(plan: OrderPlan, session: PaidCheckoutSession)
    requires
        is_plan_for(plan, session),
    ensures
        plan.order.platform_fee_amount == platform_fee(session.amount - session.discount_amount),
        plan.sale.amount == session.amount - session.discount_amount,
        plan.sale.incurred_amount == -platform_fee(session.amount - session.discount_amount),
        plan.fee.amount == -platform_fee(session.amount - session.discount_amount),
        plan.balance_increase == session.amount - session.discount_amount - platform_fee(
            session.amount - session.discount_amount,
        ),
{
}

/// Two sessions with the same amount and discount are charged the same, whatever
/// their tax: the same fee, the same sale and fee transactions, and the same increase
/// of the balance.
pub proof fn lemma_tax_does_not_change_charges(
    plan1: OrderPlan,
    session1: PaidCheckoutSession,
    plan2: OrderPlan,
    session2: PaidCheckoutSession,
)
    requires
        is_plan_for(plan1, session1),
        is_plan_for(plan2, session2),
        session1.amount == session2.amount,
        session1.discount_amount == session2.discount_amount,
    ensures
        plan1.order.platform_fee_amount == plan2.order.platform_fee_amount,
        plan1.sale.amount == plan2.sale.amount,
        plan1.sale.incurred_amount == plan2.sale.incurred_amount,
        plan1.fee.amount == plan2.fee.amount,
        plan1.balance_increase == plan2.balance_increase,
{
}

/// The balance of the store's account grows by exactly what its two new
/// transactions add up to, and by the sale's amount together with what it brings.
pub proof fn lemma_balance_follows_transactions(plan: OrderPlan, session: PaidCheckoutSession)
    requires
        is_plan_for(plan, session),
    ensures
        plan.balance_increase == plan.sale.amount + plan.fee.amount,
        plan.balance_increase == plan.sale.amount + plan.sale.incurred_amount,
        plan.balance_increase == plan.order.subtotal_amount - plan.order.discount_amount
            - plan.order.platform_fee_amount,
{
}

} // verus!
