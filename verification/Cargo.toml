[package]
name = "launchpad"
version = "0.1.0"
edition = "2021"
publish = false

[dependencies]
spl-math = { version = "=0.3.0", features = ["no-entrypoint"] }
anchor-lang = "0.31"
anchor-spl = { version = "0.31", default-features = false, features = ["token", "associated_token"] }
