[package]
name = "mcp_protocol_server"
version = "0.1.0"
edition = "2021"
publish = false

[dependencies]
mcp-protocol-types = "=0.1.0"
serde_json = "=1.0.151"
tokio = { version = "=1.53.2", features = ["io-std", "io-util", "rt", "rt-multi-thread", "sync"] }
async-trait = "=0.1.92"
thiserror = "=1.0.69"
