[package]
name = "solana_bridge"
version = "0.1.0"
edition = "2021"
publish = false

[dependencies]
anchor-lang = "=0.31.2"
borsh = "=1.8.1"
crystals-dilithium = "=2.0.0"
rand = "=0.8.8"

[dev-dependencies]
sha2 = "=0.10.9"
