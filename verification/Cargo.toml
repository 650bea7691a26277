[package]
name = "ship_compliant_v1"
version = "0.1.0"
edition = "2021"
publish = false

[dependencies]
base64 = "=0.23.1"
serde = { version = "=1.0.229", features = ["derive"] }
serde_json = { version = "=1.0.151", features = ["preserve_order"] }
tokio = { version = "=1.53.2", features = ["rt-multi-thread"] }
reqwest = { version = "=0.13.5", default-features = false, features = ["json"] }
