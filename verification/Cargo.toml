[package]
name = "doomslug"
version = "0.1.0"
edition = "2021"
publish = false

[dependencies]
bs58 = "*"
sha2 = "*"
tracing = "*"
tracing-subscriber = { version = "*", features = ["env-filter"] }
