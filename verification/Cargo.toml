[package]
name = "provisioner"
version = "0.1.0"
edition = "2021"
publish = false

[dependencies]
uuid = { version = "1", features = ["v4"] }
axum = "0.7"
tokio = { version = "1", features = ["macros", "rt-multi-thread", "sync", "time", "net"] }
serde = { version = "1", features = ["derive"] }
serde_json = "1"
chrono = "0.4"
