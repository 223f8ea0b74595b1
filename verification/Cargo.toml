[package]
name = "incro"
version = "0.1.0"
edition = "2021"
publish = false

[dependencies]
anyhow = "1"
async-ffi = "0.5"
evdev = "0.12"
libloading = "0.8"
notify = "6"
path-absolutize = "3"
scopeguard = "1"
tokio = { version = "1", features = ["rt-multi-thread", "macros", "time", "sync"] }
tracing = "0.1"
tracing-subscriber = { version = "0.3", features = ["env-filter"] }
