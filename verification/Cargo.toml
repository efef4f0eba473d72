[package]
name = "network"
version = "0.1.0"
edition = "2021"
publish = false

[dependencies]
anyhow = "1.0"
futures = "0.3"
parity-multiaddr = "*"
prost = { version = "*", default-features = false, features = ["std"] }
thiserror = "1.0"
tokio = { version = "0.2", features = ["time", "rt-core"] }
