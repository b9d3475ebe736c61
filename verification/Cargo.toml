[package]
name = "flow_control"
version = "0.1.0"
edition = "2021"
publish = false

[dependencies]
rand = "0.8"
hex = "0.4"
miette = "*"
nix = { version = "*", features = ["process"] }
serde_json = "*"
tracing = "*"
