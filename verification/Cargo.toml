[package]
name = "burn_core"
version = "0.1.0"
edition = "2021"
publish = false

[dependencies]
burn-dataset = { version = "0.11", default-features = false, features = ["fake"] }
rand = "0.8"
spin = "0.9"
