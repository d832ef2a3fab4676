[package]
name = "enerator"
version = "0.1.0"
edition = "2021"
publish = false

[dependencies]
pulldown-cmark = "=0.13.4"
syntect = { version = "=4.6.0", default-features = false, features = ["default-fancy"] }
clap = "=4.6.7"
