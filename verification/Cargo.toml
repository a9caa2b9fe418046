[package]
name = "iomrascalai"
version = "0.1.0"
edition = "2021"
publish = false

[dependencies]
rand = "0.3"
thread-scoped = "1.0"
time = "0.1"
