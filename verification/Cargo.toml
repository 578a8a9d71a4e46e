[package]
name = "dkdc-lm"
version = "0.1.0"
edition = "2021"
publish = false

[dependencies]
dkdc-sh = "*"
reqwest = { version = "*", default-features = false, features = ["blocking"] }
clap = { version = "4", features = ["derive"] }
