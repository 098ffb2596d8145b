[package]
name = "notification_client"
version = "0.1.0"
edition = "2021"
publish = false

[dependencies]
chrono = "=0.4.45"
futures = "=0.3.34"
scienceobjectsdb_rust_api = "=0.3.0-alpha.1"
tokio = { version = "=1.54.1", features = ["macros", "rt-multi-thread"] }
tokio-stream = "=0.1.19"
tonic = "=0.5.2"
