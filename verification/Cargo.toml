[package]
name = "chat_state"
version = "0.1.0"
edition = "2021"
publish = false

[dependencies]
genai-types = "*"
mcp-protocol = "*"
serde = { version = "1", features = ["derive"] }
serde_json = "1"
thiserror = "*"
