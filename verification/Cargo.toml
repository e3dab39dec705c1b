[package]
name = "vesting"
version = "0.1.0"
edition = "2021"
publish = false

[dependencies]
pinocchio = "=0.11.2"
pinocchio-token = "=0.7.0"
pinocchio-system = "=0.6.1"
pinocchio-associated-token-account = "=0.4.0"
solana-address = { version = "=2.9.0", features = ["curve25519"] }
thiserror = "=2.0.21"
