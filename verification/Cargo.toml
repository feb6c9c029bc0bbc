[package]
name = "user_directory"
version = "0.1.0"
edition = "2021"
publish = false

[dependencies]
actix-router = { version = "=0.5.4", default-features = false }
actix-web = "=4.18.1"
futures-util = "=0.3.34"
mongodb = "=2.8.2"
serde = { version = "=1.0.229", features = ["derive"] }
