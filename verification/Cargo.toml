[package]
name = "reliable_broadcast"
version = "0.1.0"
edition = "2021"
publish = false

[dependencies]
serde = { version = "=1.0.229", features = ["derive"] }
thiserror = "=2.0.21"
tokio = { version = "=1.54.1", features = ["net", "sync", "time"] }
tracing = "=0.1.44"
