[package]
name = "winsla"
version = "0.1.0"
edition = "2021"
publish = false

[dependencies]
uuid = { version = "1", features = ["v4", "serde"] }
chrono = { version = "0.4", features = ["serde"] }
sha2 = "0.10"
zeroize = "1"
serde = { version = "1", features = ["derive"] }
serde_json = "1"
tokio = { version = "1", features = ["full"] }
rusqlite = { version = "*", features = ["bundled"] }
ldap3 = { version = "0.11", default-features = false, features = ["sync"] }
axum = "0.8"
anyhow = "1"
thiserror = "1"
log = "0.4"
env_logger = "0.11"
mime_guess = "2"
