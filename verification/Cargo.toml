[package]
name = "akama"
version = "0.1.0"
edition = "2021"
publish = false

[dependencies]
xmpp-parsers = "0.21"
tokio-xmpp = "4.0"
chrono = "0.4"
async-channel = "2"
tokio = { version = "1", features = ["rt-multi-thread", "macros"] }
futures = "0.3"
log = "0.4"
simplelog = "0.12"
anyhow = "1"
serde = { version = "1", features = ["derive"] }
sqlx = { version = "0.8", default-features = false, features = ["sqlite", "runtime-tokio", "chrono"] }
