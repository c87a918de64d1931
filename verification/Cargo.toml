[package]
name = "ruma_events"
version = "0.1.0"
edition = "2021"
publish = false

[dependencies]
serde_json = "*"
ruma-identifiers = "*"
