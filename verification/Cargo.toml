[package]
name = "pinocchio_escrow"
version = "0.1.0"
edition = "2021"
publish = false

[dependencies]
pinocchio = "*"
pinocchio-pubkey = "*"
pinocchio-token = "*"
pinocchio-system = "*"
pinocchio-associated-token-account = "*"
solana-program-log = "*"
