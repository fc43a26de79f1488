[package]
name = "ferroid"
version = "0.1.0"
edition = "2021"
publish = false

[dependencies]
rand = "0.9"
portable-atomic = "1"
parking_lot = "0.12"
crossbeam-utils = "0.8"
pin-project-lite = "0.2"
tracing = "0.1"
web-time = "1"
tokio = { version = "1", features = ["time", "rt"] }
smol = "2"
