[package]
name = "hello_guest"
version = "0.1.0"
edition = "2021"
publish = false

[dependencies]
taubyte-sdk = "*"
