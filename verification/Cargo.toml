[package]
name = "node_cluster"
version = "0.1.0"
edition = "2021"
publish = false

[dependencies]
rand = "0.8"
toml = "*"
serde = "*"
serde_derive = "*"
clap = { version = "*", features = ["derive"] }
