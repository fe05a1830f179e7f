[package]
name = "signaling"
version = "0.1.0"
edition = "2021"
publish = false

[dependencies]
serde_json = { version = "=1.0.154", features = ["preserve_order"] }
actix = "0.13"
actix-rt = "2"
actix-web = { version = "4", default-features = false, features = ["macros", "ws"] }
actix-web-actors = "4"
clap = "=2.34.0"
futures = "=0.3.34"
uuid = { version = "=0.8.2", features = ["v4"] }
