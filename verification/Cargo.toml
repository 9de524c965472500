[package]
name = "fnhandle"
version = "0.1.0"
edition = "2021"
publish = false

[dependencies]
discard = "1"
