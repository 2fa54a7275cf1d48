[package]
name = "szmer"
version = "0.1.0"
edition = "2021"
publish = false

[dependencies]
chrono = "0.4"
clap = { version = "4", features = ["derive"] }
dialoguer = "*"
notify-rust = "4"
rand = "*"
serde = { version = "1", features = ["derive"] }
serde_json = "1"
