[package]
name = "termfmt"
version = "0.1.0"
edition = "2021"
publish = false

[dependencies]
owo-colors = "*"
console = "*"
human-panic = "*"
color-eyre = "0.6"
tracing = "0.1"
tracing-subscriber = "0.3"
