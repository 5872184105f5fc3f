[package]
name = "zkshield"
version = "0.1.0"
edition = "2021"
publish = false

[dependencies]
halo2_proofs = "=0.4.0"
halo2_poseidon = "=0.2.0"
halo2_gadgets = "*"
hex = "=0.4.3"
rand = "=0.10.3"
