[package]
name = "borrow_owned"
version = "0.1.0"
edition = "2021"
publish = false

[dependencies]
futures-channel = "*"

[dev-dependencies]
futures-executor = "*"
futures-task = "*"
