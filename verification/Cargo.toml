[package]
name = "last_port"
version = "0.1.0"
edition = "2021"
publish = false

[dependencies]
serde = { version = "1", features = ["derive"] }
serialport = { version = "4", default-features = false }
thiserror = "2"
tauri = { version = "2", default-features = false }

[dev-dependencies]
serde_json = "1"
