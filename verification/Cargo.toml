[package]
name = "pw_capture_core"
version = "0.1.0"
edition = "2021"
publish = false

[dependencies]
crossbeam-channel = "*"
dashmap = "*"
