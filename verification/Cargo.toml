[package]
name = "lianli"
version = "0.1.0"
edition = "2021"
publish = false

[dependencies]
serde = { version = "1", features = ["derive"] }
serde_json = "1"
anyhow = "1"
tracing = "0.1"
image = { version = "0.24", default-features = false }
imageproc = { version = "0.23", default-features = false }
rusttype = "0.9"
