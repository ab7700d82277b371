[package]
name = "vault_gateway"
version = "0.1.0"
edition = "2021"
publish = false

[dependencies]
keyring = "=4.2.0"
keyring-core = "=1.0.0"
serde_json = "=1.0.151"
reqwest = { version = "=0.13.5", default-features = false, features = ["blocking", "json"] }
