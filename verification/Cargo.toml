[package]
name = "tps546"
version = "0.1.0"
edition = "2021"
publish = false

[dependencies]
pmbus-adapter = "=0.1.0"
embedded-hal-async = "=1.0.0"
heapless = "=0.8.0"
