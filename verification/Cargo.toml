[package]
name = "i2c_master"
version = "0.1.0"
edition = "2021"
publish = false

[dependencies]
embassy-embedded-hal = "0.1"
embassy-hal-internal = "0.1"
embedded-hal = "0.2"
