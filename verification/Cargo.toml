[package]
name = "pkce_flow"
version = "0.1.0"
edition = "2021"
publish = false

[dependencies]
base64 = "0.22"
rand = "0.8"
sha2 = "0.10"
serde_urlencoded = "0.7"
serde = "1"
serde_derive = "1"
serde_json = "1"
dotenv = "0.15"
reqwest = { version = "0.12", default-features = false, features = ["blocking"] }
