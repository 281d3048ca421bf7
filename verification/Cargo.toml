[package]
name = "gc_log_analyzer"
version = "0.1.0"
edition = "2021"
publish = false

[dependencies]
chrono = { version = "*", features = ["serde"] }
clap = { version = "*", features = ["derive"] }
csv = "*"
plotters = "*"
regex = "*"
serde = { version = "*", features = ["derive"] }
