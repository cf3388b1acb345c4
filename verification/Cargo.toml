[package]
name = "robot_harness"
version = "0.1.0"
edition = "2021"
publish = false

[dependencies]
anyhow = "1"
log = "0.4"
serde = { version = "1", features = ["derive"] }
serde_json = "1"
chrono = "0.4"
tokio = { version = "1", features = ["rt-multi-thread", "macros", "net", "io-util", "sync", "time"] }
embedded-graphics = "0.8"
ssd1306 = "0.10"
embedded-svc = "*"
esp-idf-hal = "*"
esp-idf-svc = "*"
