[package]
name = "session_rotation"
version = "0.1.0"
edition = "2021"
publish = false

[dependencies]
futures = "0.3"
