[package]
name = "grid_daemon"
version = "0.1.0"
edition = "2021"
publish = false

[dependencies]
serde = { version = "=1.0.229", features = ["derive"] }
serde_json = "=1.0.154"
actix-web = "4"
futures = "0.3"
diesel = { version = "=1.4.8", features = ["postgres", "serde_json"] }
protobuf = "=2.28.0"
sawtooth-sdk = "=0.5.2"
