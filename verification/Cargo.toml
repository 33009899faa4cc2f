[package]
name = "forester"
version = "0.1.0"
edition = "2021"
publish = false

[dependencies]
bs58 = "=0.5.1"
rand = "=0.8.8"
light-registry = "=2.0.0"
account-compression = "=2.0.0"
light-system-program-anchor = "=2.0.0"
solana-sdk = "=2.3.1"
tokio = { version = "=1.54.1", features = ["sync", "time", "rt", "macros"] }
futures = "=0.3.34"
log = "=0.4.34"
