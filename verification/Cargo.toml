[package]
name = "ugo_backend"
version = "0.1.0"
edition = "2021"
publish = false

[dependencies]
uuid = { version = "=1.29.0", features = ["v4"] }
serde = { version = "=1.0.229", features = ["derive"] }
serde_json = "=1.0.154"
tokio = { version = "=1.54.1", features = ["full"] }
warp = "=0.3.7"
mysql = { version = "=28.0.4", default-features = false, features = ["minimal-rust"] }
