pub mod auth;
pub mod clock;
pub mod config;
pub mod context;
pub mod dataloader;
pub mod encoding;
pub mod entities;
pub mod event_handlers;
pub mod failure;
pub mod guards;
pub mod mutations;
pub mod patch;
pub mod queries;
pub mod utils;
