[package]
name = "icie_judge"
version = "0.1.0"
edition = "2021"
publish = false

[dependencies]
failure = "0.1"
futures = "0.3"
once_cell = "1"
