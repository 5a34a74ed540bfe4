[package]
name = "jsonrpc_transport"
version = "0.1.0"
edition = "2021"
publish = false

[dependencies]
anyhow = "1.0"
serde_json = { version = "1.0", features = ["preserve_order", "float_roundtrip"] }
tracing = "0.1"
