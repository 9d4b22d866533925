[package]
name = "kucoin"
version = "0.1.0"
edition = "2021"
publish = false

[dependencies]
rust_decimal = "1"
hmac = "0.12"
sha2 = "0.10"
base64 = "0.22"
time = "0.3"
serde = { version = "1", features = ["derive"] }
serde_json = "1"
serde_urlencoded = "0.7"
serde-value = "0.7"
reqwest = { version = "0.12", default-features = false }
tokio = { version = "1", features = ["rt-multi-thread", "macros", "sync", "time"] }
async-tungstenite = { version = "*", features = ["tokio-runtime"] }
futures-util = { version = "0.3", features = ["sink"] }
async-trait = "0.1"
snafu = "0.8"
