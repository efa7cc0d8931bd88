[package]
name = "ardi_agent"
version = "0.5.10"
edition = "2021"
publish = false

[dependencies]
alloy-primitives = "0.8"
alloy-sol-types = "0.8"
anyhow = "1"
chrono = "0.4"
clap = { version = "4", features = ["derive", "env"] }
hex = "0.4"
libc = "0.2"
rand = "0.8"
reqwest = { version = "0.12", default-features = false, features = ["blocking", "json", "rustls-tls"] }
serde = { version = "1", features = ["derive"] }
serde_json = { version = "1", features = ["arbitrary_precision"] }
sha3 = "0.10"
