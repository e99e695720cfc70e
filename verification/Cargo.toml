[package]
name = "ptp_driver"
version = "0.1.0"
edition = "2021"
publish = false

[dependencies]
log = "0.4"
pin-project-lite = "0.2"
rand = "0.8"
statime = "=0.2.2"
timestamped-socket = "0.2.8"
tokio = { version = "1", features = ["macros", "rt", "sync", "time"] }
