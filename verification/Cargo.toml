[package]
name = "sensor_api"
version = "0.1.0"
edition = "2021"
publish = false

[dependencies]
bcrypt = "*"
diesel = { version = "2", features = ["sqlite", "r2d2"] }
rocket = { version = "0.5", features = ["json", "secrets"] }
