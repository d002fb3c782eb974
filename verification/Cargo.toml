[package]
name = "worterbuch-client"
version = "0.1.0"
edition = "2021"
publish = false

[dependencies]
worterbuch-common = "=0.21.0"
tokio = { version = "=1.54.1", features = ["rt", "sync", "net", "macros"] }
tokio-tungstenite = "=0.17.2"
futures-util = { version = "=0.3.34", features = ["sink"] }
log = "=0.4.34"
