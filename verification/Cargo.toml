[package]
name = "horfimbor_mono"
version = "0.1.0"
edition = "2021"
publish = false

[dependencies]
horfimbor-eventsource = "*"
horfimbor-time = "*"
chrono = { version = "*", features = ["serde"] }
uuid = { version = "*", features = ["v4", "serde"] }
url = { version = "*", features = ["serde"] }
serde = { version = "*", features = ["derive"] }
serde_json = "*"
thiserror = "*"
anyhow = "*"
