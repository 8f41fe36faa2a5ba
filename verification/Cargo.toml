[package]
name = "bundle_test_server"
version = "0.1.0"
edition = "2021"
publish = false

[dependencies]
anyhow = "1"
bincode = "1"
bs58 = "0.5"
clap = { version = "4", features = ["derive"] }
futures = "0.3"
futures-util = "0.3"
log = "0.4"
prost-types = "0.14"
rand = "0.9"
solana-commitment-config = "3"
solana-compute-budget-interface = "3"
solana-keypair = "3"
solana-sdk = "3"
solana-system-interface = { version = "2", features = ["bincode"] }
spl-memo = "7"
tokio = { version = "1", features = ["macros", "rt-multi-thread", "time", "sync"] }
tokio-stream = "0.1"
tonic = "0.14"
tracing = "0.1"
tracing-subscriber = { version = "0.3", features = ["env-filter"] }
uuid = { version = "1", features = ["v4"] }
