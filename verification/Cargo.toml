[package]
name = "socket_core"
version = "0.1.0"
edition = "2021"
publish = false

[dependencies]
async-channel = "1.9"
gc-arena = "*"
generational-arena = "0.2"
