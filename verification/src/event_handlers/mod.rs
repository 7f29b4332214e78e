pub mod create_order_from_checkout_session;
pub mod update_account_status;
