[package]
name = "svm_core"
version = "0.1.0"
edition = "2021"
publish = false

[dependencies]
agave-feature-set = "2.2"
serde = { version = "1.0", features = ["derive"] }
serde_derive = "1.0"
solana-account = "2.2"
solana-clock = "2.2"
solana-epoch-schedule = "2.2"
solana-poh-config = "2.2"
solana-precompile-error = "2.2"
solana-program-runtime = "2.2"
solana-pubkey = "2.2"
solana-rent = "2.2"
solana-sdk = "2.2"
solana-sdk-ids = "2.2"
solana-secp256r1-program = "2.2"
solana-time-utils = "2.2"
solana-transaction-context = "2.2"
solana-transaction-error = "2.2"

[dev-dependencies]
bytemuck = "1"
