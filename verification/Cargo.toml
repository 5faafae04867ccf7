[package]
name = "nip_55"
version = "0.1.0"
edition = "2021"
publish = false

[dependencies]
anyhow = "=1.0.104"
async-trait = "=0.1.92"
futures = "=0.3.34"
nostr = { version = "=0.44.8", features = ["nip04", "nip46"] }
nostr-sdk = "=0.44.1"
nostr-relay-pool = "=0.44.3"
serde = { version = "=1.0.229", features = ["derive"] }
serde_json = { version = "=1.0.154", features = ["preserve_order"] }
tokio = { version = "=1.54.1", features = ["full"] }
tokio-util = { version = "=0.7.20", features = ["io", "io-util"] }
