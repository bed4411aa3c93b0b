[package]
name = "ds"
version = "0.1.0"
edition = "2021"
publish = false

[dependencies]
anyhow = "=1.0.104"
bytes = "=1.12.1"
chrono = { version = "=0.4.45", default-features = false, features = ["std"] }
futures-util = { version = "=0.3.34", default-features = false, features = ["std", "sink"] }
tokio = { version = "=1.54.1", features = ["macros", "net", "rt", "rt-multi-thread", "sync", "time"] }
tokio-util = { version = "=0.7.20", features = ["codec", "net"] }
