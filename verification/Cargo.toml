[package]
name = "node_link"
version = "0.1.0"
edition = "2021"
publish = false

[dependencies]
hmac = "*"
sha3 = "*"
rand = "*"
chrono = "*"
tokio = { version = "*", features = ["rt-multi-thread", "sync", "time", "net", "macros"] }
tokio-tungstenite = "*"
futures-util = "*"
dashmap = "*"
http = "*"
uuid = "*"
reqwest = { version = "*", default-features = false }
reqwest-middleware = "*"
async-trait = "*"
