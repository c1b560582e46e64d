[package]
name = "frp"
version = "0.1.0"
edition = "2021"
publish = false

[dependencies]
async-channel = "2"
derive_more = { version = "1", features = ["deref"] }
salvo = { version = "*", features = ["serve-static"] }
salvo_core = "*"
serde = { version = "1", features = ["derive"] }
serde_json = "1"
tokio = { version = "1", features = ["full"] }
toml = "*"
