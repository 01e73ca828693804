[package]
name = "solo_rs_pool"
version = "0.1.0"
edition = "2021"
publish = false

[dependencies]
anyhow = "1"
askama = { version = "0.12", features = ["with-axum"] }
askama_axum = "0.4"
async-stream = "0.3"
axum = "0.7"
bitcoin = "0.32"
bitcoin_hashes = "0.14"
bitcoincore-rpc = "0.19"
chrono = { version = "0.4", features = ["serde"] }
dotenvy = "0.15"
futures-core = "0.3"
futures-util = "0.3"
hex = "0.4"
rand = "0.8"
serde = { version = "1", features = ["derive"] }
serde_json = "1"
sqlx = { version = "0.8", default-features = false, features = ["runtime-tokio", "sqlite"] }
tokio = { version = "1", features = ["full"] }
tower-http = { version = "0.5", features = ["fs"] }
tracing = "0.1"
tracing-subscriber = { version = "0.3", features = ["env-filter"] }
zmq = "0.10"
