[package]
name = "tyche"
version = "0.1.0"
edition = "2021"
publish = false

[dependencies]
sha2 = "*"
solana-sdk = "*"
solana-system-interface = "*"
pinocchio = "*"
pinocchio-system = "*"
ephemeral-rollups-pinocchio = "*"
spl-governance-addin-api = "*"
