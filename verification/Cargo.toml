[package]
name = "noir_compile"
version = "0.1.0"
edition = "2021"
publish = false

[dependencies]
serde_json = "*"
log = "*"
color-eyre = "*"
