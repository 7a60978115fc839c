[package]
name = "aquavoice"
version = "0.1.0"
edition = "2021"
publish = false

[dependencies]
base64 = "0.22"
cpal = "0.15"
reqwest = { version = "0.12", default-features = false, features = ["blocking", "json", "rustls-tls"] }
serde = { version = "1", features = ["derive"] }
serde_json = "1"

[dev-dependencies]
hound = "3.5"
