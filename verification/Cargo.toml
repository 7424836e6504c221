[package]
name = "squads_index"
version = "0.1.0"
edition = "2021"
publish = false

[dependencies]
solana-pubkey = { version = "2", features = ["sha2", "curve25519"] }
solana-keypair = "2"
solana-signer = "2"
solana-transaction = { version = "2", features = ["bincode"] }
solana-instruction = "2"
solana-commitment-config = "2"
solana-signature = "2"
solana-sdk-ids = "2"
solana-rpc-client = "2"
solana-rpc-client-api = "2"
solana-transaction-status-client-types = "2"
solana-cli-config = "2"
tokio = { version = "1", features = ["rt-multi-thread", "macros"] }
clap = { version = "4", features = ["derive"] }
anyhow = "1"
indicatif = "0.17"
shellexpand = "3"
