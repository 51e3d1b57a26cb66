[package]
name = "mcp_router"
version = "0.1.0"
edition = "2021"
publish = false

[dependencies]
anyhow = "*"
mcp-server = "*"
mcp-spec = "*"
serde_json = "*"
tokio = { version = "*", features = ["full"] }
