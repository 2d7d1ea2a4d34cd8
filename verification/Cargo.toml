[package]
name = "chimes_auth"
version = "0.1.0"
edition = "2021"
publish = false

[dependencies]
chrono = "0.4"
actix-web = "4"
actix-utils = "3"
futures-core = "0.3"
serde = { version = "1", features = ["derive"] }
serde_derive = "1"
