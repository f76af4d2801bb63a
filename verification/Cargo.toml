[package]
name = "lis2hh12"
version = "0.1.0"
edition = "2021"
publish = false

[dependencies]
embedded-hal = "=0.2.7"
accelerometer = "=0.6.1"
