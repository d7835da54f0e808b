[package]
name = "mojo_world"
version = "0.1.0"
edition = "2021"
publish = false

[dependencies]
anyhow = "=1.0.104"
base64 = "=0.22.1"
bincode = "=1.3.3"
image = { version = "=0.25.10", default-features = false, features = ["png", "jpeg", "gif", "webp"] }
mpl-core = "=0.12.1"
reqwest = { version = "=0.13.5", default-features = false, features = ["json", "blocking"] }
serde = { version = "=1.0.229", features = ["derive"] }
serde_json = "=1.0.151"
solana-hash = { version = "=4.7.0", features = ["decode"] }
solana-instruction = "=4.0.0"
solana-program = "=3.0.0"
solana-pubkey = { version = "=4.4.0", features = ["curve25519", "sha2"] }
solana-sha256-hasher = "=3.1.0"
solana-signature = "=3.6.0"
solana-signer = "=4.0.0"
solana-transaction = { version = "=5.1.0", features = ["serde", "wincode"] }
thiserror = "=2.0.21"
tokio = { version = "=1.53.2", default-features = false, features = ["fs"] }
