[package]
name = "cargo_pgo"
version = "0.1.0"
edition = "2021"
publish = false

[dependencies]
anyhow = "1"
cargo_metadata = "0.14"
colored = "2"
log = "0.4"
