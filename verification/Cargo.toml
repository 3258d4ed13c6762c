[package]
name = "rockscache"
version = "0.1.0"
edition = "2021"
publish = false

[dependencies]
chrono = "=0.4.45"
rmp-serde = "=1.3.1"
rustis = "=0.13.3"
serde = { version = "=1.0.229", features = ["derive"] }
sha1 = "=0.10.7"
tokio = { version = "=1.54.1", features = ["time"] }
uuid = { version = "=1.29.0", features = ["v4"] }
