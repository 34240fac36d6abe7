[package]
name = "dispatcher"
version = "0.1.0"
edition = "2021"
publish = false

[dependencies]
serde_json = "1"
url = "2"
serde = { version = "1", features = ["derive"] }
toml = "0.8"
anyhow = "1"
async-trait = "0.1"
log = "0.4"
env_logger = "0.11"
futures = "0.3"
tokio = { version = "1", features = ["full"] }
reqwest = { version = "0.12", default-features = false }
axum = "0.7"
pulsar = { version = "6", default-features = false, features = ["tokio-runtime"] }
rune = "0.13"
rune-modules = { version = "0.13", features = ["http", "json"] }
