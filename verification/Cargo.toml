[package]
name = "pkce_flow"
version = "0.1.0"
edition = "2021"
publish = false

[dependencies]
pkce = "*"
base64 = "*"
axum = "0.6"
reqwest = { version = "*", default-features = false, features = ["json"] }
serde = { version = "*", features = ["derive"] }
serde_json = "*"
tokio = { version = "1", features = ["full"] }
local-ip-address = "*"
