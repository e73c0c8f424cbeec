[package]
name = "kisaseed"
version = "0.1.0"
edition = "2021"
publish = false

[dependencies]
cipher = "=0.4.4"
