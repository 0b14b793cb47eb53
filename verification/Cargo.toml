[package]
name = "partial_config"
version = "0.1.0"
edition = "2021"
publish = false

[dependencies]
num-traits = "=0.2.19"

[dev-dependencies]
partial-functional = "=0.1.0"
