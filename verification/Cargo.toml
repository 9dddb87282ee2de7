[package]
name = "ble_dual_role"
version = "0.1.0"
edition = "2021"
publish = false

[dependencies]
rand = "=0.10.3"
anyhow = "=1.0.104"
btleplug = "=0.13.4"
ble-peripheral-rust = "=0.2.0"
clap = { version = "=4.6.7", features = ["derive"] }
env_logger = "=0.11.11"
log = "=0.4.34"
tokio = { version = "=1.53.2", features = ["rt-multi-thread", "macros", "time", "sync"] }
uuid = "=1.27.0"
