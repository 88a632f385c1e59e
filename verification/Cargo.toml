[package]
name = "ble_to_mqtt"
version = "0.1.0"
edition = "2021"
publish = false

[dependencies]
anyhow = "=1.0.104"
async-trait = "=0.1.92"
btleplug = "=0.11.8"
env_logger = "=0.11.11"
envconfig = "=0.11.1"
futures = "=0.3.34"
hex = "=0.4.3"
log = "=0.4.35"
memphis-rust-community = "=0.4.0"
rumqttc = "=0.25.1"
serde = { version = "=1.0.229", features = ["derive"] }
serde_json = "=1.0.154"
tokio = { version = "=1.54.1", features = ["full"] }
uuid = { version = "=1.29.0", features = ["serde"] }
