[package]
name = "visibility_notifier"
version = "0.1.0"
edition = "2021"
publish = false

[dependencies]
iced = { version = "0.10", default-features = false, features = ["advanced"] }
