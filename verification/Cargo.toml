[package]
name = "device_agent"
version = "0.1.0"
edition = "2021"
publish = false

[dependencies]
futures = "0.3"
paho-mqtt = { version = "*", default-features = false, features = ["bundled"] }
tokio = { version = "1", features = ["macros", "rt-multi-thread", "time"] }
