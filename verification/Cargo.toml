[package]
name = "checkout_client"
version = "0.1.0"
edition = "2021"
publish = false

[dependencies]
secrecy = "=0.8.0"
serde = { version = "=1.0.229", features = ["derive"] }
serde_json = "=1.0.151"
reqwest = { version = "=0.11.27", default-features = false, features = ["json"] }
bigdecimal = "=0.4.11"
