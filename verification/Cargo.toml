[package]
name = "rnpm"
version = "0.1.0"
edition = "2021"
publish = false

[dependencies]
clap = "2"
crossterm = "0.22"
serde = { version = "1", features = ["derive"] }
serde_json = "1"
