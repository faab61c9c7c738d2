[package]
name = "client_registry"
version = "0.1.0"
edition = "2021"
publish = false

[dependencies]
zbus = "*"
