[package]
name = "ghin"
version = "0.1.0"
edition = "2021"
publish = false

[dependencies]
anyhow = "1"
async-trait = "0.1"
config = "0.13"
env_logger = "0.10"
log = "0.4"
prost = "0.12"
prost-types = "0.12"
reqwest = { version = "0.11", default-features = false, features = ["json", "rustls-tls"] }
serde = { version = "1", features = ["derive"] }
tokio = { version = "1", features = ["macros", "rt-multi-thread", "sync"] }
tonic = "0.11"
tonic-reflection = "0.11"
