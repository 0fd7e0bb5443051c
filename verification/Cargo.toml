[package]
name = "surface-dial-daemon"
version = "0.1.0"
edition = "2021"
publish = false

[dependencies]
evdev = "=0.13.2"
libc = "=0.2.191"
hidapi = "=2.6.7"
udev = "=0.9.3"
zbus = { version = "=4.4.0", default-features = false, features = ["tokio"] }
tokio = { version = "=1.54.1", features = ["rt-multi-thread", "time"] }
notify-rust = "=4.18.2"
serde = { version = "=1.0.229", features = ["derive"] }
serde_yaml = "=0.9.34"
toml = "=0.8.23"
directories = "=5.0.1"
lazy_static = "=1.5.1"
parking_lot = "=0.12.5"
