[package]
name = "dragonfly_client"
version = "0.1.0"
edition = "2021"
publish = false

[dependencies]
hex = "=0.4.3"
sha2 = "=0.11.0"
url = "=2.5.8"
uuid = { version = "=1.27.0", features = ["v4"] }
tokio = { version = "=1.53.2", features = ["sync", "time"], default-features = false }
tonic = { version = "=0.14.6", default-features = false }
