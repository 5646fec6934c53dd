[package]
name = "babbelaar_compiler"
version = "0.1.0"
edition = "2021"
publish = false

[dependencies]
object = { version = "0.36", default-features = false, features = ["write"] }
tower-lsp = { version = "0.20" }
