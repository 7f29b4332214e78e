[package]
name = "starfish"
version = "0.1.0"
edition = "2021"
publish = false

[dependencies]
async-graphql = { version = "=7.2.1", features = ["chrono", "uuid", "dataloader"] }
async-graphql-axum = "=7.2.1"
axum = "=0.8.9"
base64 = "=0.22.1"
chrono = { version = "=0.4.45", features = ["serde"] }
envy = "=0.4.2"
hex = "=0.4.3"
jsonwebtoken = "=9.3.1"
md5 = "=0.8.1"
rand = "=0.10.3"
reqwest = { version = "=0.13.5", default-features = false, features = ["json", "form", "native-tls"] }
resend-rs = "=0.35.1"
serde = { version = "=1.0.229", features = ["derive"] }
serde_json = "=1.0.154"
sha2 = "=0.11.1"
sqlx = { version = "=0.8.6", default-features = false, features = ["postgres", "runtime-tokio", "uuid", "chrono", "json", "derive"] }
tokio = { version = "=1.54.1", features = ["macros", "rt-multi-thread", "net"] }
uuid = { version = "=1.29.0", features = ["serde"] }
