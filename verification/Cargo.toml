[package]
name = "ast_names"
version = "0.1.0"
edition = "2021"
publish = false

[dependencies]
arbitrary = "=1.4.2"
