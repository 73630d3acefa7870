[package]
name = "dht_core"
version = "0.1.0"
edition = "2021"
publish = false

[dependencies]
multihash = "0.8"
serde = { version = "1", features = ["derive"] }
serde_json = "1"
libc = "0.2"
wasmi = "*"
reqwest = { version = "0.11", features = ["blocking", "json"] }
hyper = { version = "0.14", features = ["full"] }
hyper-staticfile = "0.9"
tokio = { version = "1", features = ["rt-multi-thread", "net"] }
jsonrpc-http-server = "18"
rust_sodium-sys = "*"
