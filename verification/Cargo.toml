[package]
name = "openhl"
version = "0.1.0"
edition = "2021"
publish = false

[dependencies]
anyhow = "1"
clap = { version = "4", features = ["derive"] }
serde = { version = "1", features = ["derive"] }
serde_json = "1"
solana-commitment-config = "2.2"
solana-compute-budget-interface = { version = "=2.2.2", features = ["borsh"] }
solana-keypair = "2.2"
solana-program = "=2.3.0"
solana-rpc-client = "2.3"
solana-signer = "2.2"
solana-system-interface = { version = "=1.0.0", features = ["bincode"] }
solana-transaction = { version = "2.2", features = ["bincode"] }
