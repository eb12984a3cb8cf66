[package]
name = "sqlite_storage"
version = "0.1.0"
edition = "2021"
publish = false

[dependencies]
anyhow = "1"
flume = "0.11"
log = "0.4"
openmls_traits = "0.3"
serde = { version = "1", features = ["derive"] }
serde_json = "1"
sqlx = { version = "0.7", default-features = false, features = ["sqlite", "runtime-tokio", "migrate"] }
thiserror = "1"
tokio = { version = "1", features = ["rt-multi-thread", "macros", "sync"] }
