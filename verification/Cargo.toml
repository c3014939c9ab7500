[package]
name = "led_progress"
version = "0.1.0"
edition = "2021"
publish = false

[dependencies]
anyhow = "*"
blinkt = "*"
env_logger = "*"
rspotify = { version = "*", features = ["cli"] }
tokio = { version = "*", features = ["macros", "rt-multi-thread", "time"] }
