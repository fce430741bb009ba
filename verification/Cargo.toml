[package]
name = "robotjs"
version = "0.1.0"
edition = "2021"
publish = false

[dependencies]
enigo = "0.0.14"
screenshots = "0.7"
