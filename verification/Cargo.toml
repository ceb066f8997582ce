[package]
name = "sol_token_faucet"
version = "0.1.0"
edition = "2021"
publish = false

[dependencies]
borsh = "=1.8.1"
solana-program = "=2.3.0"
solana-keypair = "=2.2.3"
solana-signer = "=2.2.1"
solana-transaction = { version = "=2.2.3", features = ["bincode"] }
solana-commitment-config = "=2.2.1"
solana-rpc-client = { version = "2", default-features = false }
serde = { version = "=1.0.229", features = ["derive"] }
serde_json = "=1.0.154"
