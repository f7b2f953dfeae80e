[package]
name = "reconciler"
version = "0.1.0"
edition = "2021"
publish = false

[dependencies]
accesskit = "*"
tracing = "*"
vello = { version = "*", default-features = false }
