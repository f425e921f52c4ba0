[package]
name = "nodeless_api"
version = "0.1.0"
edition = "2021"
publish = false

[dependencies]
hmac = "=0.13.0"
sha2 = "=0.11.0"
hex = "=0.4.3"
jsonwebtoken = { version = "=11.1.0", default-features = false, features = ["rust_crypto"] }
qr_code = "=2.0.0"
rand = "=0.10.3"
uuid = { version = "=1.27.0", features = ["v4"] }
dotenvy = "=0.15.7"
toml = "=1.1.7"
serde = { version = "=1.0.229", features = ["derive"] }
serde_json = "=1.0.151"
thiserror = "=2.0.21"
