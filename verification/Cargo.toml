[package]
name = "eyre"
version = "0.1.0"
edition = "2021"
publish = false

[dependencies]
eyre-impl = "*"
tracing-error = "*"
adhocerr = "*"
err = "*"
