[package]
name = "charizhard_ota"
version = "0.1.0"
edition = "2021"
publish = false

[dependencies]
anyhow = "1"
axum = "0.8"
axum-keycloak-auth = "*"
minio-rsc = "*"
regex = "1"
reqwest = "*"
rustls = "0.23"
rustls-pemfile = "2"
serde = { version = "1", features = ["derive"] }
serde_json = "1"
tokio = { version = "1", features = ["full"] }
tracing-subscriber = "0.3"
urlencoding = "2"
