[package]
name = "cleardevil"
version = "0.1.0"
edition = "2021"
publish = false

[dependencies]
actix-web = "4"
btleplug = "0.11"
serde = { version = "1", features = ["derive"] }
serde_json = "1"
tokio = { version = "1", features = ["time"] }
