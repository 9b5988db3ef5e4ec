[package]
name = "ops_console"
version = "0.1.0"
edition = "2021"
publish = false

[dependencies]
anyhow = "1"
async-trait = "0.1"
base64 = "0.22"
chrono = "0.4"
futures = "0.3"
log = "0.4"
parking_lot = "0.12"
ring = "0.17"
russh = "0.45"
russh-keys = "0.45"
russh-sftp = "2"
serde = { version = "1", features = ["derive"] }
serde_json = "1"
thiserror = "1"
tokio = { version = "1", features = ["full"] }
tokio-util = "0.7"
uuid = { version = "1", features = ["v4"] }
