[package]
name = "btleplug_client"
version = "0.1.0"
edition = "2021"
publish = false

[dependencies]
uuid = "1"
log = "0.4"
tokio = { version = "1", features = ["sync", "rt-multi-thread", "time", "macros"] }
futures = "0.3"
rustler = "0.36"
btleplug = "0.11"
ble-peripheral-rust = "*"
bluster = "0.2"
pretty_env_logger = "0.5"
chrono = "0.4"
once_cell = "1"
lazy_static = "1"
