[package]
name = "api_server"
version = "0.1.0"
edition = "2021"
publish = false

[dependencies]
uuid = { version = "1", features = ["v4"] }
serde = { version = "1", features = ["derive"] }
serde_json = "1"
tiny_http = "0.12"
dotenvy = "0.15"
mysql = { version = "*", default-features = false, features = ["minimal-rust"] }
