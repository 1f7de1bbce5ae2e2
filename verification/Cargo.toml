[package]
name = "bls_encryption_service"
version = "0.1.0"
edition = "2021"
publish = false

[dependencies]
aes-gcm = "=0.10.3"
sha2 = "=0.10.9"
hex = "=0.4.3"
rand = "=0.8.8"
base64 = "=0.22.1"
x25519-dalek = { version = "2", features = ["static_secrets"] }
serde = { version = "=1.0.229", features = ["derive"] }
serde_json = "=1.0.154"
anyhow = "=1.0.104"
clap = { version = "=4.6.7", features = ["derive"] }
indicatif = "=0.17.11"
tokio = { version = "=1.54.1", features = ["full"] }
axum = "=0.7.9"
tower = { version = "=0.4.13", features = ["util"] }
tower-http = { version = "=0.5.2", features = ["cors"] }
wasm-bindgen = "=0.2.130"
console_error_panic_hook = "=0.1.7"

[dev-dependencies]
tempfile = "=3.27.0"
