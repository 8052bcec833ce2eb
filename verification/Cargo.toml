[package]
name = "panel-rust"
version = "0.1.0"
edition = "2021"
publish = false

[dependencies]
serde_json = { version = "=1.0.154", features = ["preserve_order"] }
serde = { version = "=1.0.229", features = ["derive"] }
thiserror = "=2.0.21"
tokio = { version = "=1.54.1", features = ["rt-multi-thread", "macros", "sync", "time", "io-util", "io-std"] }
opener = "=0.9.0"
uuid = { version = "=1.29.0", features = ["v4"] }
slint = { version = "=1.18.1", default-features = false, features = ["std", "compat-1-2"] }
agent-client-protocol = { version = "=5.0.0", features = ["stdio"] }
