[package]
name = "stone_prover_sdk"
version = "0.1.0"
edition = "2021"
publish = false

[dependencies]
bincode = { version = "2.0.0-rc.3", default-features = false, features = ["serde"] }
cairo-vm = "=3.2.0"
serde = { version = "=1.0.229", features = ["derive"] }
serde_json = "=1.0.154"
tempfile = "=3.27.0"
thiserror = "=1.0.69"
tokio = { version = "=1.54.1", features = ["process"] }
