[package]
name = "traffic_tracker"
version = "0.1.0"
edition = "2021"
publish = false

[dependencies]
num-bigint = "*"
serde = "*"
serde_derive = "*"
serde_json = "*"
dirs = "*"
chrono = "*"
