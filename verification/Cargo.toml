[package]
name = "nesir"
version = "0.1.0"
edition = "2021"
publish = false

[dependencies]
clap = { version = "4", features = ["derive"] }
minifb = "*"
tracing-subscriber = { version = "0.3", features = ["env-filter"] }
