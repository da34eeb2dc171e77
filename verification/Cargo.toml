[package]
name = "kimcli"
version = "0.1.0"
edition = "2021"
publish = false

[dependencies]
shlex = "1"
uuid = "1"
serde = { version = "1", features = ["derive"] }
serde_json = "1"
anyhow = "1"
tracing = "0.1"
image = { version = "0.25", default-features = false, features = ["png"] }
