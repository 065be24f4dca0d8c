[package]
name = "sign_cmd"
version = "0.1.0"
edition = "2021"
publish = false

[dependencies]
sp-core = "*"
structopt = "*"

[dev-dependencies]
hex = "*"
