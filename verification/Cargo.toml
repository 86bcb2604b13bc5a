[package]
name = "tsadaash"
version = "0.1.0"
edition = "2021"
publish = false

[dependencies]
argon2 = "=0.6.0"
chrono = "=0.4.45"
chrono-tz = "=0.10.4"
inquire = { version = "=0.9.4", features = ["date"] }
rusqlite = { version = "=0.40.2", features = ["bundled"] }
