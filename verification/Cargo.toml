[package]
name = "sensor_temps"
version = "0.1.0"
edition = "2021"
publish = false

[dependencies]
chrono = "*"
ehttp = "*"
serde = { version = "*", features = ["derive"] }
serde_json = "*"
bigdecimal = "*"
