[package]
name = "nexus_server"
version = "0.1.0"
edition = "2021"
publish = false

[dependencies]
argon2 = { version = "=0.5.3", features = ["std"] }
regex = "=1.13.1"
uuid = { version = "=1.29.0", features = ["v4", "serde"] }
chrono = "=0.4.45"
tokio = { version = "=1.54.1", features = ["full"] }
rusqlite = { version = "=0.31.0", features = ["bundled"] }
bincode = "=1.3.3"
serde = { version = "=1.0.229", features = ["derive"] }
once_cell = "=1.21.4"
tracing = "=0.1.44"
tracing-subscriber = "=0.3.23"
futures = "=0.3.34"
tokio-util = { version = "=0.7.20", features = ["codec"] }
