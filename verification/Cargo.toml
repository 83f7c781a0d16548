[package]
name = "orunner"
version = "0.1.0"
edition = "2021"
publish = false

[dependencies]
clap = { version = "*", features = ["derive"] }
confy = "*"
serde = { version = "*", features = ["derive"] }
serde_derive = "*"
shellwords = "*"
