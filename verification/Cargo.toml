[package]
name = "gmsol_harness"
version = "0.1.0"
edition = "2021"
publish = false

[dependencies]
gmsol-model = { version = "=0.10.0", features = ["test", "u128"] }
