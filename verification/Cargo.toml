[package]
name = "asset_portal"
version = "0.1.0"
edition = "2021"
publish = false

[dependencies]
blake3 = "1"
mime2ext = "0.1"
uuid = { version = "1", features = ["v4"] }
validator = "0.16"
sea-orm = { version = "0.10", default-features = false, features = ["sqlx-postgres", "runtime-tokio-rustls", "macros", "with-uuid", "with-chrono"] }
sea-orm-migration = { version = "0.10", default-features = false }
sqlx = { version = "0.6", default-features = false, features = ["runtime-tokio-rustls", "postgres"] }
secrecy = { version = "0.8", features = ["serde"] }
serde = { version = "1", features = ["derive"] }
serde-aux = "4"
config = { version = "0.13", default-features = false, features = ["yaml"] }
csv = "1"
actix-web = "4"
actix-multipart = "0.6"
actix-web-flash-messages = { version = "0.4", features = ["cookies"] }
actix-web-lab = "0.18"
actix-web-grants = "3"
actix-session = { version = "0.7", features = ["cookie-session"] }
anyhow = "1"
thiserror = "1"
tokio = { version = "1", features = ["macros", "rt-multi-thread"] }
tracing = { version = "0.1", features = ["log"] }
tracing-subscriber = { version = "0.3", features = ["registry", "env-filter"] }
futures = "0.3"
mime = "0.3"
chrono = "0.4"
async-trait = "0.1"
