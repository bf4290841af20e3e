[package]
name = "velo"
version = "0.1.0"
edition = "2021"
publish = false

[dependencies]
light-poseidon = "0.2"
ark-bn254 = "0.4"
ark-ff = "0.4"
solana-program = "*"
