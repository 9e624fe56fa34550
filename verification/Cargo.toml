[package]
name = "astra_flash"
version = "0.1.0"
edition = "2021"
publish = false

[dependencies]
rust_decimal = "1"
chrono = "0.4"
serde = { version = "1", features = ["derive"] }
serde_json = "1"
simd-json = "*"
bincode = "1"
thiserror = "*"
tracing = "0.1"
tokio = { version = "1", features = ["full"] }
tokio-tungstenite = "*"
futures-util = "0.3"
url = "2"
dashmap = "*"
parking_lot = "0.12"
rand = "0.9"
deadpool-redis = "*"
redis = "*"
