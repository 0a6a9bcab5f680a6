[package]
name = "bindump"
version = "0.1.0"
edition = "2021"
publish = false

[dependencies]
object = "*"
clap = { version = "*", features = ["derive"] }
