[package]
name = "axelar_solana"
version = "0.1.0"
edition = "2021"
publish = false

[dependencies]
anyhow = "1"
clap = { version = "4", features = ["derive"] }
cosmrs = { version = "=0.16.0", default-features = false }
eyre = "0.6"
futures-util = "0.3"
hex = "=0.4.3"
solana-program = { version = "2", default-features = false }
solana-sdk = { version = "=2.3.1", default-features = false, features = ["full"] }
tokio = { version = "=1.54.1", features = ["macros", "rt", "sync", "time"] }
tokio-util = "=0.7.20"
tracing = "0.1"
url = "=2.5.8"
