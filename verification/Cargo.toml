[package]
name = "safe_gateway"
version = "0.1.0"
edition = "2021"
publish = false

[dependencies]
mime_guess = "*"
url = "*"
iron = "*"
thread-id = "*"
lazy_static = "*"
