[package]
name = "danmuji"
version = "0.1.0"
edition = "2021"
publish = false

[dependencies]
sha2 = "*"
eyre = "*"
cargo_metadata = "*"
clap = { version = "*", features = ["derive"] }
clap-cargo = "*"
