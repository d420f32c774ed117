[package]
name = "subversive"
version = "0.1.0"
edition = "2021"
publish = false

[dependencies]
ed25519-dalek = { version = "2", features = ["rand_core"] }
rand = "0.8"
base58 = "0.2"
base64 = "0.22"
serde = { version = "1", features = ["derive"] }
serde_json = "1"
serde_yaml = "0.9"
tokio = { version = "1", features = ["full"] }
reqwest = { version = "0.12", features = ["json"] }
axum = "0.7"
axum-server = { version = "0.7", features = ["tls-rustls"] }
anyhow = "1"
thiserror = "1"
tracing = "0.1"
clap = { version = "4", features = ["derive"] }
chrono = "0.4"
igd = { version = "0.12", features = ["aio"] }
async-trait = "0.1"
rusty-leveldb = "3"
rusqlite = { version = "0.31", features = ["bundled"] }
