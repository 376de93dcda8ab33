[package]
name = "stars_forks"
version = "0.1.0"
edition = "2021"
publish = false

[dependencies]
fluvio-smartmodule = "*"
serde = { version = "*", features = ["derive"] }
serde_json = "*"
