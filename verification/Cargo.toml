[package]
name = "census_proofs"
version = "0.1.0"
edition = "2021"
publish = false

[dependencies]
plonky2 = "=0.2.2"
anyhow = "=1.0.104"
