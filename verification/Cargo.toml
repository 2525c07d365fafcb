[package]
name = "mcp_bind"
version = "0.1.0"
edition = "2021"
publish = false

[dependencies]
axum = "0.8"
rmcp = { version = "2.2", features = ["server", "macros", "transport-streamable-http-server"] }
schemars = "1"
serde = { version = "1", features = ["derive"] }
serde_json = "1"
tokio = { version = "1", features = ["rt-multi-thread", "net", "sync", "time", "macros"] }
