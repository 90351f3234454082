[package]
name = "hylo_core"
version = "0.1.0"
edition = "2021"
rust-version = "1.95.0"
publish = false

[dependencies]
hylo-fix = { version = "=0.9.0", default-features = false }
rust_decimal = "=1.43.0"
anyhow = "=1.0.104"
solana-pubkey = { version = "=3.0.0", features = ["curve25519"] }
solana-sdk-ids = "=3.1.0"
solana-instruction = "=3.5.1"
solana-program-pack = "=3.1.0"
spl-token-interface = "=3.0.0"
spl-associated-token-account-interface = "=2.0.0"
const-crypto = "=0.3.0"
anchor-lang = "=1.2.1"
pyth-solana-receiver-sdk = "=2.0.0"
