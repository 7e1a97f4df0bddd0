[package]
name = "countdown_timer"
version = "0.1.0"
edition = "2021"
publish = false

[dependencies]
embedded-graphics = "*"
heapless = "*"
