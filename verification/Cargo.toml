[package]
name = "microboost"
version = "0.1.0"
edition = "2021"
publish = false

[dependencies]
chrono = "0.4"
cpal = "0.15"
rodio = "0.19"

[dev-dependencies]
hound = "3.5"
