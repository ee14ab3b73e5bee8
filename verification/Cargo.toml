[package]
name = "stars"
version = "0.1.0"
edition = "2021"
publish = false

[dependencies]
csv = "=1.4.0"
serde = { version = "=1.0.229", features = ["derive"] }
serde_json = "=1.0.154"
clap = { version = "=4.6.7", features = ["derive"] }
png = "0.17"
chrono = { version = "0.4", default-features = false, features = ["std", "clock"] }
