[package]
name = "mundy"
version = "0.1.0"
edition = "2021"
publish = false

[dependencies]
futures-lite = "2"
futures-channel = "0.3"
async-io = "2"
zbus = "5"
