[package]
name = "flyp-marketplace"
version = "0.1.0"
edition = "2021"
publish = false

[dependencies]
anchor-lang = { version = "0.29", features = ["init-if-needed"] }
anchor-spl = "0.29"
mpl-token-metadata = "4"
