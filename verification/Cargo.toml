[package]
name = "jetstream_sessions"
version = "0.1.0"
edition = "2021"
publish = false

[dependencies]
uuid = "=1.27.0"
lazy_static = "=1.5.1"
