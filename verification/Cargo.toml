[package]
name = "engine_orchestrator"
version = "0.1.0"
edition = "2021"
publish = false

[dependencies]
async-trait = "0.1"
chrono = "0.4"
hex = "0.4"
log = "0.4"
regex = "1"
serde = { version = "1", features = ["derive"] }
serde_json = "1"
sha2 = "0.10"
sqlx = { version = "0.8", default-features = false, features = ["runtime-tokio", "sqlite"] }
tauri = { version = "2", default-features = false }
thiserror = "1"
tokio = { version = "1", features = ["io-util", "macros", "process", "rt", "sync", "time"] }
uuid = { version = "1", features = ["v4"] }
