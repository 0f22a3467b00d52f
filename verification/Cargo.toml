[package]
name = "heos"
version = "0.1.0"
edition = "2021"
publish = false

[dependencies]
qstring = "0.7"
url = "2"
serde = { version = "1", features = ["derive"] }
serde_json = "1"
tokio = { version = "1", features = ["full"] }
tokio-stream = "0.1"
parking_lot = "0.12"
async-trait = "0.1"
ssdp-client = "2"
tracing = "0.1"
