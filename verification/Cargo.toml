[package]
name = "x509_verify_params"
version = "0.1.0"
edition = "2021"
publish = false

[dependencies]
openssl-sys = "*"
libc = "*"
