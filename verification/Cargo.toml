[package]
name = "oidc-app-auth"
version = "0.1.0"
edition = "2021"
publish = false

[dependencies]
base64 = "0.22"
hex = "0.4"
hmac = "0.12"
openidconnect = "4"
rand = "0.8"
serde = { version = "1", features = ["derive"] }
serde_json = "1"
sha2 = "0.10"
thiserror = "2"
