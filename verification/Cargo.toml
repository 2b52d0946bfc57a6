[package]
name = "rs_postgres"
version = "0.1.0"
edition = "2021"
publish = false

[dependencies]
ring = "*"
sha2 = "*"
base64 = "*"
serde = { version = "*", features = ["derive"] }
serde_json = "*"
dirs = "*"
