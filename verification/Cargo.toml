[package]
name = "pi_touchscreen_control"
version = "0.1.0"
edition = "2021"
publish = false

[dependencies]
yaml-rust2 = "*"
mosquitto-rs = "*"
serde_json = "1"
smol = "2"
async-std = "1"
futures = "0.3"
log = "0.4"
env_logger = "*"
libc = "0.2"
