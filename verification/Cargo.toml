[package]
name = "inputsync"
version = "0.1.0"
edition = "2021"
publish = false

[dependencies]
uuid = { version = "1", features = ["v4"] }
blake3 = { version = "1", default-features = false, features = ["std", "pure"] }
hex = "0.4"
bytes = "1"
bincode = "1.3"
serde = { version = "1", features = ["derive"] }
serde_json = "1"
toml = "0.8"
tokio = { version = "1", features = ["full"] }
quinn = { version = "0.11", default-features = false, features = ["runtime-tokio", "rustls-ring", "log"] }
rustls = { version = "0.23", default-features = false, features = ["ring", "std", "tls12", "logging"] }
rcgen = "0.13"
clap = { version = "4", features = ["derive"] }
anyhow = "1"
thiserror = "1"
tracing = "0.1"
tracing-subscriber = { version = "0.3", features = ["env-filter"] }
parking_lot = "0.12"
directories = "5"
crossbeam-channel = "0.5"
async-trait = "0.1"
arboard = "3"
image = { version = "0.25", default-features = false, features = ["png"] }
