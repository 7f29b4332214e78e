pub mod calculate_platform_fee;
pub mod create_avatar_url;
pub mod create_client_secret;
pub mod create_hash;
pub mod create_random_code;
