[package]
name = "minerva"
version = "0.1.0"
edition = "2021"
publish = false

[dependencies]
postgres = "0.19"
postgres-protocol = "0.6"
quick_cache = "0.6"
serde = { version = "1", features = ["derive"] }
serde_json = "1"
serde_yaml = "0.9"
humantime = "2"
clap = { version = "4", features = ["derive"] }
