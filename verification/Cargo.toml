[package]
name = "rmk"
version = "0.1.0"
edition = "2021"
publish = false

[dependencies]
embedded-hal = "1.0"
embedded-hal-async = "1.0"
embassy-futures = "0.1"
embassy-time = "*"
log = "0.4"
