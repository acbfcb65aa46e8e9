[package]
name = "websvc"
version = "0.1.0"
edition = "2021"
publish = false

[dependencies]
minreq = "*"
serde = { version = "*", features = ["derive"] }
