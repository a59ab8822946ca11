[package]
name = "psi_core"
version = "0.1.0"
edition = "2021"
publish = false

[dependencies]
curve25519-elligator2 = "=0.1.0-alpha.2"
rand = "=0.8.8"
sha2 = "=0.10.9"
