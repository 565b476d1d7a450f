[package]
name = "shroom_proto95"
version = "0.1.0"
edition = "2021"
publish = false

[dependencies]
regress = "0.10"
futures = "0.3"
pin-project-lite = "0.2"
anyhow = "1"
