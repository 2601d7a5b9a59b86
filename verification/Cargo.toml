[package]
name = "encrypted_ptr"
version = "0.1.0"
edition = "2021"
publish = false

[dependencies]
rand = "*"
