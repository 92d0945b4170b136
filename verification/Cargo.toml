[package]
name = "wooting_analog_sdk"
version = "0.1.0"
edition = "2021"
publish = false

[dependencies]
anyhow = "=1.0.104"
bimap = "=0.6.3"
chrono = "=0.4.45"
env_logger = "=0.11.11"
ffi-support = "=0.4.4"
hidapi = { version = "=2.6.7", default-features = false, features = ["linux-native-basic-udev"] }
lazy_static = "=1.5.1"
libloading = "=0.8.9"
log = "=0.4.34"
timer = "=0.2.0"
winapi = { version = "0.3", features = ["winuser"] }
