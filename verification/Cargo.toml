[package]
name = "ergon"
version = "0.1.0"
edition = "2021"
publish = false

[dependencies]
rand = "=0.10.3"
serde = { version = "=1.0.229", features = ["derive"] }
serde_json = "=1.0.151"
reqwest = { version = "=0.13.5", default-features = false, features = ["json"] }
tokio = { version = "=1.53.2", features = ["full"] }
home = "=0.5.12"
rmcp = { version = "=3.5.1", features = ["client", "transport-child-process", "transport-streamable-http-client-reqwest"] }
