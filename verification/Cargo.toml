[package]
name = "casper_node"
version = "0.1.0"
edition = "2021"
publish = false

[dependencies]
csv = "1.1"
datasize = "0.2"
derive_more = "0.99"
hex = "0.4"
once_cell = "1"
prometheus = { version = "0.10", default-features = false }
semver = { version = "0.11", features = ["serde"] }
serde = { version = "1.0", features = ["derive"] }
thiserror = "1.0"
toml = "0.5"
uint = "0.8"
