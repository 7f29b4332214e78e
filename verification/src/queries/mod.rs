pub mod balance;
pub mod orders;
pub mod session;
pub mod store_invites;
