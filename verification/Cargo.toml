[package]
name = "berrycode"
version = "0.1.0"
edition = "2021"
publish = false

[dependencies]
serde = { version = "=1.0.229", features = ["derive"] }
serde_json = "=1.0.154"
ron = "=0.8.1"
toml = "=0.8.23"
uuid = { version = "=1.29.0", features = ["v4"] }
whoami = "=1.6.1"
dirs = "=5.0.1"
egui = { version = "=0.31.1", default-features = false }
regex = "1"
