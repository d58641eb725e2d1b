[package]
name = "single_route"
version = "0.1.0"
edition = "2021"
publish = false

[dependencies]
axum = "*"
tokio = { version = "*", features = ["macros", "rt-multi-thread", "net"] }
log = "*"
env_logger = "*"

[dev-dependencies]
serde_json = "*"
