[package]
name = "local_automation"
version = "0.1.0"
edition = "2021"
publish = false

[dependencies]
csv = "1"
uuid = { version = "1", features = ["v4"] }
chrono = "0.4"
serde = { version = "1", features = ["derive"] }
serde_json = "1"
tokio = { version = "1", features = ["fs", "rt"] }
async-trait = "0.1"
