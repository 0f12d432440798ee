[package]
name = "spoticord"
version = "0.1.0"
edition = "2021"
publish = false

[dependencies]
anyhow = "1"
axum = { version = "0.7", default-features = false, features = ["http1", "json", "query", "tokio"] }
chrono = { version = "0.4", default-features = false, features = ["clock", "serde", "std"] }
dotenvy = "0.15"
env_logger = { version = "0.11", default-features = false }
log = "0.4"
poise = { version = "0.6", default-features = false, features = ["cache"] }
rspotify = { version = "0.13", default-features = false, features = ["client-reqwest", "reqwest-rustls-tls"] }
serde = { version = "1", features = ["derive"] }
serde_json = "1"
serenity = { version = "0.12", default-features = false, features = ["builder", "cache", "client", "gateway", "http", "model", "utils", "rustls_backend"] }
songbird = { version = "0.4", default-features = false, features = ["driver", "gateway", "serenity", "rustls"] }
thiserror = "1"
tokio = { version = "1", features = ["rt-multi-thread", "macros", "sync", "time", "fs", "net"] }
