[package]
name = "input_injection"
version = "0.1.0"
edition = "2021"
publish = false

[dependencies]
autopilot = "0.4"
core-graphics = "*"
tracing = "0.1"
