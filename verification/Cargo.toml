[package]
name = "vertex_connector"
version = "0.1.0"
edition = "2021"
publish = false

[dependencies]
alloy-primitives = "*"
ethsign = "*"
tokio = { version = "*", features = ["rt-multi-thread", "macros", "time", "net"] }
tokio-tungstenite = "*"
tungstenite = "*"
futures-util = "*"
url = "*"
serde = { version = "*", features = ["derive"] }
serde_json = "*"
