[package]
name = "k3scontainer"
version = "0.1.0"
edition = "2021"
publish = false

[dependencies]
random-string = "*"
clap = { version = "*", features = ["derive"] }
