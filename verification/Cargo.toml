[package]
name = "xlm_ns"
version = "0.1.0"
edition = "2021"
publish = false

[dependencies]
anyhow = "1"
chrono = "0.4"
clap = { version = "4", features = ["derive"] }
colored = "2"
csv = "1"
serde = { version = "1", features = ["derive"] }
serde_json = "1"
