[package]
name = "wallet_core"
version = "0.1.0"
edition = "2021"
publish = false

[dependencies]
secp256k1 = { version = "=0.31.1", features = ["rand", "hashes"] }
ed25519-dalek = "=3.0.0"
rand = "=0.9.5"
bs58 = "=0.5.1"
hex = "=0.4.3"
clap = { version = "=4.6.7", features = ["derive"] }
diesel = { version = "=2.3.13", features = ["sqlite", "chrono"] }
libsqlite3-sys = { version = "=0.38.2", features = ["bundled"] }
chrono = "=0.4.45"
anyhow = "=1.0.104"
