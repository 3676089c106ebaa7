[package]
name = "rv_iss"
version = "0.1.0"
edition = "2021"
publish = false

[dependencies]
clap = { version = "4", features = ["derive"] }
goblin = "*"
tracing = "*"
tracing-subscriber = { version = "0.3", features = ["time"] }
time = { version = "0.3", features = ["formatting", "parsing", "macros"] }
