[package]
name = "h2ok"
version = "0.1.0"
edition = "2021"
publish = false

[dependencies]
clap = "*"
k8s-openapi = { version = "*", features = ["latest"] }
