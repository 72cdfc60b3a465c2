[package]
name = "moosic"
version = "0.1.0"
edition = "2021"
publish = false

[dependencies]
argon2 = { version = "0.5", features = ["std"] }
rand = "0.8"
rand_core = { version = "0.6", features = ["getrandom"] }
dashmap = "6"
moka = { version = "0.12", features = ["future", "sync"] }
redis = { version = "0.27", default-features = false, features = ["aio", "tokio-comp"] }
serde = { version = "1", features = ["derive"] }
serde_json = "1"
axum = "0.8"
tokio = { version = "1", features = ["full"] }
tower-http = { version = "0.6", features = ["fs"] }
sea-orm = { version = "1", default-features = false, features = ["sqlx-sqlite", "runtime-tokio-rustls", "macros", "with-json"] }
sea-orm-migration = { version = "1", default-features = false, features = ["sqlx-sqlite", "runtime-tokio-rustls"] }
async-trait = "0.1"
lofty = "0.22"
notify = "*"
memory-stats = "1"
tracing = "0.1"
tracing-appender = "0.2"
tracing-subscriber = "0.3"
