[package]
name = "scilla"
version = "0.1.0"
edition = "2021"
publish = false

[dependencies]
anyhow = "*"
chrono = { version = "*", default-features = false, features = ["std"] }
solana-commitment-config = "=2.2.1"
solana-instruction = "=2.2.1"
solana-keypair = "=2.2.3"
solana-message = "=2.2.1"
solana-pubkey = "=2.2.1"
solana-rpc-client = { version = "=2.2.20", default-features = false }
solana-signer = "=2.2.1"
solana-stake-interface = "=1.2.1"
solana-transaction = "=2.2.3"
tokio = { version = "*", features = ["rt-multi-thread"] }

[dev-dependencies]
bincode = "=1.3.3"
