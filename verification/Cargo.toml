[package]
name = "rollback_accounts"
version = "0.1.0"
edition = "2021"
publish = false

[dependencies]
solana-account = "=4.7.0"
solana-clock = "=3.2.1"
solana-pubkey = "=4.4.0"

[dev-dependencies]
bincode = "1"
solana-hash = { version = "=4.7.0", features = ["atomic"] }
solana-nonce = { version = "=3.4.0", features = ["serde"] }
solana-sdk-ids = "=3.1.0"
solana-sha256-hasher = { version = "=3.1.0", features = ["sha2"] }
