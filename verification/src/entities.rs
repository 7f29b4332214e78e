//! The records the service stores and returns. Identifiers are the 128-bit values
//! of UUIDs; instants are microseconds since the Unix epoch.
use vstd::prelude::*;

verus! {

/// An instant, in microseconds since 1970-01-01T00:00:00Z.
pub type Timestamp = i64;

/// A one-time login token: its id is handed to the client with the address it was sent to.
pub struct OneTimeToken {
    pub id: String,
    pub email: String,
    pub expires_at: Timestamp,
}

/// A link into the payment provider's onboarding, valid until `expires_at`.
pub struct OnboardingLink {
    pub url: String,
    pub expires_at: Timestamp,
    pub created_at: Timestamp,
}

/// The tokens handed to a signed-in client, with the Unix time at which each expires.
pub struct Tokens {
    pub access_token: String,
    pub refresh_token: String,
    pub access_token_expires_at: i64,
    pub refresh_token_expires_at: i64,
}

#[derive(Clone, Copy, PartialEq, Eq, Structural, Debug, Hash)]
pub struct UserId(pub u128);

pub struct User {
    pub id: UserId,
    pub email: String,
    pub name: Option<String>,
    pub avatar_url: Option<String>,
    pub created_at: Timestamp,
    pub modified_at: Option<Timestamp>,
}

#[derive(Clone, Copy, PartialEq, Eq, Structural, Debug, Hash)]
pub struct SessionId(pub u128);

pub struct Session {
    pub id: SessionId,
    pub user_id: UserId,
    pub last_seen_at: Timestamp,
    pub is_current_session: bool,
}

pub struct RevokedSession {
    pub id: SessionId,
}

#[derive(Clone, Copy, PartialEq, Eq, Structural, Debug, Hash)]
pub struct StoreId(pub u128);

#[derive(Clone, Copy, PartialEq, Eq, Structural, Debug)]
pub enum StoreStatus {
    Created,
    OnboardingStarted,
    Denied,
    Active,
}

pub struct Store {
    pub id: StoreId,
    pub slug: String,
    pub name: String,
    pub status: StoreStatus,
    pub email: Option<String>,
    pub website: Option<String>,
    pub avatar_url: Option<String>,
    pub created_at: Timestamp,
    pub modified_at: Option<Timestamp>,
}

pub struct StoreEdge {
    pub cursor: StoreId,
    pub node: Store,
}

pub struct StoreConnection {
    pub edges: Vec<StoreEdge>,
    pub nodes: Vec<Store>,
}

#[derive(Clone, Copy, PartialEq, Eq, Structural, Debug, Hash)]
pub struct AccountId(pub u128);

/// Where a store's payment account stands with the payment provider.
#[derive(Clone, Copy, PartialEq, Eq, Structural, Debug)]
pub enum AccountStatus {
    OnboardingStarted,
    Active,
}

pub struct Account {
    pub id: AccountId,
    pub stripe_id: String,
}

#[derive(Clone, Copy, PartialEq, Eq, Structural, Debug, Hash)]
pub struct StoreMemberId(pub u128);

pub struct StoreMember {
    pub id: StoreMemberId,
    pub user_id: UserId,
    pub store_id: StoreId,
    pub created_at: Timestamp,
    pub modified_at: Option<Timestamp>,
}

pub struct StoreMemberEdge {
    pub cursor: StoreMemberId,
    pub node: StoreMember,
}

pub struct StoreMemberConnection {
    pub edges: Vec<StoreMemberEdge>,
    pub nodes: Vec<StoreMember>,
}

#[derive(Clone, Copy, PartialEq, Eq, Structural, Debug, Hash)]
pub struct CustomerId(pub u128);

pub struct Customer {
    pub id: CustomerId,
    pub store_id: StoreId,
    pub email: String,
    pub name: Option<String>,
    pub avatar_url: String,
    pub created_at: Timestamp,
    pub modified_at: Option<Timestamp>,
}

pub struct DeletedCustomer {
    pub id: CustomerId,
}

pub struct CustomerEdge {
    pub cursor: CustomerId,
    pub node: Customer,
}

pub struct CustomerConnection {
    pub edges: Vec<CustomerEdge>,
    pub nodes: Vec<Customer>,
}

#[derive(Clone, Copy, PartialEq, Eq, Structural, Debug, Hash)]
pub struct ProductId(pub u128);

pub struct Product {
    pub id: ProductId,
    pub store_id: StoreId,
    pub name: String,
    pub description: Option<String>,
    pub archived: bool,
    pub created_at: Timestamp,
    pub modified_at: Option<Timestamp>,
}

/// A price given when a product is created, in cents.
pub struct CreateProductPrice {
    pub amount: i64,
}

pub struct ProductEdge {
    pub cursor: ProductId,
    pub node: Product,
}

pub struct ProductConnection {
    pub edges: Vec<ProductEdge>,
    pub nodes: Vec<Product>,
}

#[derive(Clone, Copy, PartialEq, Eq, Structural, Debug, Hash)]
pub struct PriceId(pub u128);

#[derive(Clone, Copy)]
pub struct Price {
    pub id: PriceId,
    pub product_id: ProductId,
    pub amount: i64,
    pub archived: bool,
    pub created_at: Timestamp,
    pub modified_at: Option<Timestamp>,
}

#[derive(Clone, Copy, PartialEq, Eq, Structural, Debug, Hash)]
pub struct StoreInviteId(pub u128);

pub struct StoreInvite {
    pub id: StoreInviteId,
    pub store_id: StoreId,
    pub email: String,
    pub accepted_at: Option<Timestamp>,
    pub revoked_at: Option<Timestamp>,
    pub created_at: Timestamp,
    pub modified_at: Option<Timestamp>,
}

impl StoreInvite {
    /// A copy of the invite, field for field.
    pub fn duplicate(&self) -> (copy: Self)
        ensures
            copy.id == self.id,
            copy.store_id == self.store_id,
            copy.email@ == self.email@,
            copy.accepted_at == self.accepted_at,
            copy.revoked_at == self.revoked_at,
            copy.created_at == self.created_at,
            copy.modified_at == self.modified_at,
    {
        StoreInvite {
            id: self.id,
            store_id: self.store_id,
            email: self.email.clone(),
            accepted_at: self.accepted_at,
            revoked_at: self.revoked_at,
            created_at: self.created_at,
            modified_at: self.modified_at,
        }
    }
}

pub struct StoreInviteEdge {
    pub cursor: StoreInviteId,
    pub node: StoreInvite,
}

pub struct StoreInviteConnection {
    pub edges: Vec<StoreInviteEdge>,
    pub nodes: Vec<StoreInvite>,
}

#[derive(Clone, Copy, PartialEq, Eq, Structural, Debug)]
pub enum CheckoutSessionStatus {
    Open,
    Expired,
    Confirmed,
    Failed,
    Succeeded,
}

#[derive(Clone, Copy, PartialEq, Eq, Structural, Debug, Hash)]
pub struct CheckoutSessionId(pub u128);

pub struct CheckoutSession {
    pub id: CheckoutSessionId,
    pub store_id: StoreId,
    pub product_id: ProductId,
    pub customer_id: Option<CustomerId>,
    pub customer_email: Option<String>,
    pub client_secret: String,
    pub amount: i64,
    pub tax_amount: Option<i64>,
    pub discount_amount: i64,
    pub net_amount: i64,
    pub total_amount: i64,
    pub status: CheckoutSessionStatus,
    pub url: String,
    pub success_url: Option<String>,
    pub created_at: Timestamp,
    pub modified_at: Option<Timestamp>,
}

pub struct CheckoutSessionEdge {
    pub cursor: CheckoutSessionId,
    pub node: CheckoutSession,
}

pub struct CheckoutSessionConnection {
    pub edges: Vec<CheckoutSessionEdge>,
    pub nodes: Vec<CheckoutSession>,
}

#[derive(Clone, Copy, PartialEq, Eq, Structural, Debug, Hash)]
pub struct CheckoutLinkId(pub u128);

pub struct CheckoutLink {
    pub id: CheckoutLinkId,
    pub store_id: StoreId,
    pub client_secret: String,
    pub label: Option<String>,
    pub success_url: Option<String>,
    pub url: String,
    pub created_at: Timestamp,
    pub modified_at: Option<Timestamp>,
}

pub struct DeletedCheckoutLink {
    pub id: CheckoutLinkId,
}

pub struct CheckoutLinkEdge {
    pub cursor: CheckoutLinkId,
    pub node: CheckoutLink,
}

pub struct CheckoutLinkConnection {
    pub edges: Vec<CheckoutLinkEdge>,
    pub nodes: Vec<CheckoutLink>,
}

#[derive(Clone, Copy, PartialEq, Eq, Structural, Debug)]
pub enum OrderStatus {
    Pending,
    Paid,
    Refunded,
    PartiallyRefunded,
}

#[derive(Clone, Copy, PartialEq, Eq, Structural, Debug)]
pub enum BillingReason {
    Purchase,
    SubscriptionCreation,
    SubscriptionRenewal,
    SubscriptionUpdate,
}

#[derive(Clone, Copy, PartialEq, Eq, Structural, Debug, Hash)]
pub struct OrderId(pub u128);

#[derive(Clone, Copy)]
pub struct Order {
    pub id: OrderId,
    pub store_id: StoreId,
    pub customer_id: CustomerId,
    pub checkout_session_id: Option<CheckoutSessionId>,
    pub status: OrderStatus,
    pub subtotal_amount: i64,
    pub discount_amount: i64,
    pub net_amount: i64,
    pub tax_amount: i64,
    pub total_amount: i64,
    pub platform_fee_amount: i64,
    pub billing_reason: BillingReason,
    pub created_at: Timestamp,
    pub modified_at: Option<Timestamp>,
}

pub struct OrderEdge {
    pub cursor: OrderId,
    pub node: Order,
}

pub struct OrderConnection {
    pub edges: Vec<OrderEdge>,
    pub nodes: Vec<Order>,
}

#[derive(Clone, Copy, PartialEq, Eq, Structural, Debug, Hash)]
pub struct OrderItemId(pub u128);

pub struct OrderItem {
    pub id: OrderItemId,
    pub order_id: OrderId,
    pub product_price_id: PriceId,
    pub label: String,
    pub amount: i64,
    pub tax_amount: i64,
    pub created_at: Timestamp,
    pub modified_at: Option<Timestamp>,
}

#[derive(Clone, Copy, PartialEq, Eq, Structural, Debug, Hash)]
pub struct TransactionId(pub u128);

#[derive(Clone, Copy)]
pub struct Transaction {
    pub id: TransactionId,
    pub account_id: AccountId,
    pub amount: i64,
    pub fee_amount: i64,
    pub net_amount: i64,
    pub created_at: Timestamp,
}

pub struct TransactionEdge {
    pub cursor: TransactionId,
    pub node: Transaction,
}

pub struct TransactionConnection {
    pub edges: Vec<TransactionEdge>,
    pub nodes: Vec<Transaction>,
}

/// The money a store's account holds, in cents.
pub struct Balance {
    pub amount: i64,
}

} // verus!
