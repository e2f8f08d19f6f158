[package]
name = "fancy_ip"
version = "0.1.0"
edition = "2021"
publish = false

[dependencies]
litrs = "*"
proc-macro-error = "*"
proc-macro2 = "*"
