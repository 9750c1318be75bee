[package]
name = "kzg_engine"
version = "0.1.0"
edition = "2021"
publish = false

[dependencies]
c-kzg = "*"
rayon = "*"
hex = "*"

[dev-dependencies]
bls12_381 = "*"
