[package]
name = "janitor"
version = "0.1.0"
edition = "2021"
publish = false

[dependencies]
anyhow = "1"
async-trait = "0.1"
chrono = "0.4"
dashmap = "6"
futures = "0.3"
poise = "0.6"
serde = { version = "1", features = ["derive"] }
serde_json = "1"
serenity = { version = "0.12", default-features = false, features = ["builder", "cache", "chrono", "client", "gateway", "http", "model", "utils", "rustls_backend"] }
sqlx = { version = "0.8", default-features = false, features = ["postgres", "runtime-tokio", "tls-rustls", "chrono", "derive"] }
tokio = { version = "1", features = ["macros", "rt-multi-thread", "fs", "sync", "time"] }
tracing = "0.1"
tracing-subscriber = "0.3"
url = "2"
