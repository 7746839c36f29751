[package]
name = "corona"
version = "0.1.0"
edition = "2021"
publish = false

[dependencies]
context = "2"
futures = "0.1"
tokio-core = "0.1"
