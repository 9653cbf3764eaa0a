[package]
name = "proto_php_plugin"
version = "0.1.0"
edition = "2021"
publish = false

[dependencies]
extism-pdk = "*"
proto_pdk = "*"
schematic = "*"
serde = { version = "1", features = ["derive"] }
serde_json = "1"
