[package]
name = "stellar-aid"
version = "0.1.0"
edition = "2021"
publish = false

[dependencies]
stellar-strkey = "0.0.8"
soroban-sdk = "21"
serde = { version = "1", features = ["derive"] }
serde_json = "1"
thiserror = "1"
reqwest = { version = "0.12", default-features = false, features = ["json", "blocking"] }
tokio = { version = "1", features = ["time", "macros", "rt-multi-thread"] }
rusqlite = { version = "0.31", features = ["bundled"] }
dotenvy = "0.15"
tracing = "0.1"
tracing-subscriber = { version = "0.3", features = ["env-filter", "json"] }
