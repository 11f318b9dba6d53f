[package]
name = "book_api"
version = "0.1.0"
edition = "2021"
publish = false

[dependencies]
actix-web = "=4.18.1"
chrono = { version = "=0.4.45", features = ["serde"] }
dotenv = "=0.15.0"
futures = "=0.3.34"
mongodb = { version = "=2.8.2", features = ["bson-chrono-0_4"] }
serde = { version = "=1.0.229", features = ["derive"] }
serde_json = "=1.0.154"
tracing = "=0.1.44"
tracing-subscriber = "=0.3.23"
