[package]
name = "python_supervisor"
version = "0.1.0"
edition = "2021"
publish = false

[dependencies]
log = "=0.4.34"
serde = { version = "=1.0.229", features = ["derive"] }
serde_json = "=1.0.154"
tauri = { version = "2", default-features = false }
tokio = { version = "=1.54.1", features = ["io-util", "macros", "process", "rt", "time"] }
uuid = { version = "=1.29.0", features = ["v4"] }
windows-sys = { version = "=0.59.0", features = ["Win32_Foundation", "Win32_System_Registry"] }
zip = { version = "=2.6.1", default-features = false, features = ["deflate"] }
