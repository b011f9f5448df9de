[package]
name = "indigauge"
version = "0.1.0"
edition = "2021"
publish = false

[dependencies]
crossbeam-channel = "*"
serde = { version = "*", features = ["derive"] }
serde_json = "*"
uuid = { version = "*", features = ["v4"] }
reqwest = { version = "*", default-features = false, features = ["blocking", "json"] }
