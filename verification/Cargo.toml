[package]
name = "smart_thermostat"
version = "0.1.0"
edition = "2021"
publish = false

[dependencies]
anyhow = "1"
argon2 = { version = "0.5", features = ["std"] }
base64 = "0.22"
blake3 = "1"
chrono = "0.4"
chrono-tz = "0.10"
colored = "2"
hex = "0.4"
indicatif = "0.17"
lazy_static = "1"
rand = "0.9"
regex = "1"
reqwest = { version = "0.12", default-features = false, features = ["blocking", "json", "rustls-tls"] }
rpassword = "7"
rusqlite = { version = "0.32", features = ["bundled"] }
serde = { version = "1", features = ["derive"] }
sha2 = "0.10"
zeroize = "1"
