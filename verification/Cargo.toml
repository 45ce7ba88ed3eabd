[package]
name = "rabbit_trading_core"
version = "0.1.0"
edition = "2021"
publish = false

[dependencies]
rust_decimal = "*"
anyhow = "*"
async-trait = "*"
futures-util = "*"
longbridge = "*"
reqwest = { version = "*", default-features = false, features = ["json"] }
serde_json = "*"
time = { version = "*", features = ["formatting", "macros"] }
tokio = { version = "*", features = ["rt-multi-thread", "macros", "sync", "time", "net"] }
tokio-tungstenite = "*"
