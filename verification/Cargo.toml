[package]
name = "laptop_sensor_daemon"
version = "0.1.0"
edition = "2021"
publish = false

[dependencies]
evdev = { version = "*", features = ["tokio"] }
futures-util = "0.3"
serde = { version = "1", features = ["derive"] }
serde_json = "1"
snafu = "0.8"
tokio = { version = "1", features = ["full"] }
tracing = "0.1"
tracing-subscriber = "0.3"
zbus = "5"
