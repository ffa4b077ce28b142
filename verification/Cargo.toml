[package]
name = "ssh-mcp-client"
version = "0.1.0"
edition = "2021"
publish = false

[dependencies]
regex = "1"
uuid = { version = "1", features = ["v4"] }
base64 = "0.22"
serde = { version = "1", features = ["derive"] }
serde_json = "1"
schemars = "*"
chrono = "0.4"
thiserror = "*"
tokio = { version = "1", features = ["full"] }
tokio-util = "*"
tracing = "0.1"
tracing-subscriber = "0.3"
rusqlite = { version = "*", features = ["bundled"] }
keyring = "3"
russh = "*"
russh-sftp = "*"
axum = "*"
rmcp = { version = "*", features = ["server", "macros", "transport-streamable-http-server"] }
