[package]
name = "terminal_sessions"
version = "0.1.0"
edition = "2021"
publish = false

[dependencies]
uuid = { version = "=1.29.0", features = ["v4"] }
parking_lot = "=0.12.5"
portable-pty = "0.9"
serde = { version = "=1.0.229", features = ["derive"] }
serde_json = "=1.0.154"
dirs = "=5.0.1"
log = "=0.4.34"
ureq = "=2.12.1"
zed_extension_api = "=0.7.0"
