[package]
name = "helius_ws_client"
version = "0.1.0"
edition = "2021"
publish = false

[dependencies]
serde_json = "*"
url = "*"
tokio = { version = "*", features = ["rt-multi-thread", "macros", "time", "sync"] }
tokio-tungstenite = "*"
tungstenite = "*"
futures-util = "*"
redis = { version = "*", features = ["tokio-comp"] }
thiserror = "*"
actix-web = "*"
