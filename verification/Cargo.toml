[package]
name = "language_handler"
version = "0.1.0"
edition = "2021"
publish = false

[dependencies]
serde_json = "*"
cocoa = "*"
objc = "*"
