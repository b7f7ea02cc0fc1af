[package]
name = "scpi"
version = "0.1.0"
edition = "2021"
publish = false

[dependencies]
lexical-core = { version = "0.8", features = ["power-of-two"] }
arrayvec = "0.7"
uom = "*"
