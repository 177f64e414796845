[package]
name = "domain_key"
version = "0.1.0"
edition = "2021"
publish = false

[dependencies]
blake3 = "*"
smartstring = "*"
serde = { version = "*", features = ["derive"] }
thiserror = "*"
