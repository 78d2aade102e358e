[package]
name = "aegis_orchestrator_core"
version = "0.1.0"
edition = "2021"
publish = false

[dependencies]
anyhow = "1"
async-trait = "0.1"
bollard = "*"
chrono = { version = "0.4", default-features = false, features = ["clock", "std"] }
ed25519-dalek = "2"
futures = "0.3"
metrics = "*"
parking_lot = "0.12"
reqwest = { version = "0.12", default-features = false, features = ["json", "multipart", "stream"] }
serde = { version = "1", features = ["derive"] }
serde_json = "1"
sqlx = { version = "0.8", default-features = false, features = ["postgres", "runtime-tokio", "chrono", "uuid", "json", "macros"] }
thiserror = "1"
tokio = { version = "1", features = ["sync", "time", "rt", "macros"] }
tonic = { version = "*", default-features = false }
tracing = "0.1"
uuid = { version = "1", features = ["v4"] }
