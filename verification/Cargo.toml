[package]
name = "turbopack-cli-dev"
version = "0.1.0"
edition = "2021"
publish = false

[dependencies]
anyhow = "1"
futures = "0.3"
owo-colors = "3"
tokio = { version = "1", features = ["time"] }
webbrowser = "0.8"
