[package]
name = "workflow_engine"
version = "0.1.0"
edition = "2021"
publish = false

[dependencies]
anyhow = "*"
allocative = "*"
starlark = "*"
uuid = { version = "*", features = ["v4"] }
which = "*"
