[package]
name = "kmdnd"
version = "0.1.0"
edition = "2021"
publish = false

[dependencies]
uuid = { version = "1", features = ["v4"] }
rand = "0.8"
chrono = "0.4"
serde = { version = "1", features = ["derive"] }
mongodb = "3"
actix-web = "4"
futures = "0.3"
tracing = "0.1"
tracing-subscriber = "0.3"
tracing-actix-web = "0.7"
