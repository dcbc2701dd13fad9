[package]
name = "solana_programs"
version = "0.1.0"
edition = "2021"
publish = false

[dependencies]
anchor-lang = { version = "=0.31.2", features = ["init-if-needed"] }
anchor-spl = "=0.31.2"
borsh = { version = "=1.8.1", features = ["derive"] }
solana-program = "=2.3.0"
solana-system-interface = { version = "=1.0.0", features = ["bincode"] }
