[package]
name = "adoptium_jdk"
version = "0.1.0"
edition = "2021"
publish = false

[dependencies]
extism-pdk = "*"
proto_pdk = "*"
rustc-hash = "*"
serde = { version = "*", features = ["derive"] }
url = "*"
