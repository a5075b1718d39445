[package]
name = "delay_init"
version = "0.1.0"
edition = "2021"
publish = false

[dependencies]
spin = "=0.12.3"

[dev-dependencies]
crossbeam-utils = "*"
