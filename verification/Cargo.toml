[package]
name = "oci_auth"
version = "0.1.0"
edition = "2021"
publish = false

[dependencies]
base64 = "=0.22.1"
serde_json = "=1.0.154"
serde = { version = "1", features = ["derive"] }
reqwest = { version = "0.12", features = ["json"] }
chrono = "0.4"
dotenvy = "0.15"
log = "0.4"
