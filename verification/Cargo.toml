[package]
name = "identity_kerberos"
version = "0.1.0"
edition = "2021"
publish = false

[dependencies]
base64 = "0.22"
libgssapi = "*"
metrics = "0.24"
serde = { version = "1", features = ["derive"] }
serde_json = "1"
thiserror = "2"
tracing = "0.1"
