[package]
name = "mx100qp"
version = "0.1.0"
edition = "2021"
publish = false

[dependencies]
bytes = "1"
futures = "0.3"
serde = { version = "1", features = ["derive"] }
serde_json = "1"
serialport = { version = "4", default-features = false }
tokio = { version = "1", features = ["io-util", "macros", "rt", "sync", "time"] }
tokio-serial = "5"
tokio-util = { version = "0.7", features = ["codec"] }
