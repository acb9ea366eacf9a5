[package]
name = "google_ai_rs"
version = "0.1.0"
edition = "2021"
publish = false

[dependencies]
base64 = "0.22"
pem = "3"
rand = "0.8"
rsa = { version = "0.9", features = ["sha2"] }
sha2 = { version = "0.10", features = ["oid"] }
serde = { version = "1", features = ["derive"] }
serde_json = "1"
thiserror = "1"
tokio = { version = "1", features = ["fs", "macros", "rt-multi-thread", "io-util", "io-std"] }
tonic = { version = "0.12", default-features = false }
