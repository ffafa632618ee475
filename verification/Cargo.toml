[package]
name = "solana_pqc"
version = "0.1.0"
edition = "2021"
publish = false

[dependencies]
curve25519-dalek = "=4.1.3"
pqcrypto-falcon = "=0.3.0"
pqcrypto-traits = "=0.3.5"
sha2 = "=0.10.9"
solana-message = "=6.0.0"
solana-pubkey = "=4.4.0"
solana-sanitize = "=3.0.1"
solana-signature = { version = "=3.6.0", features = ["verify"] }

[dev-dependencies]
solana-hash = "=4.7.0"
