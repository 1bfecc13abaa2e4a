[package]
name = "sensor_lib_as5600"
version = "0.1.0"
edition = "2021"
publish = false

[dependencies]
embedded-hal = "1"
