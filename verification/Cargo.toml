[package]
name = "workpool"
version = "0.1.0"
edition = "2021"
publish = false

[dependencies]
crossbeam = "0.8"

[dev-dependencies]
regex = "1"
