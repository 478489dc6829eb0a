[package]
name = "webify_models"
version = "0.1.0"
edition = "2021"
publish = false

[dependencies]
image = "0.24"
console = "0.15"
indicatif = "0.15"
