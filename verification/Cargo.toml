[package]
name = "nux"
version = "0.1.0"
edition = "2021"
publish = false

[dependencies]
duct = "*"
structopt = "*"
config = { version = "*", default-features = false, features = ["toml"] }
indicatif = "*"
dialoguer = "*"
console = "*"
colored = "*"
rust-embed = "*"
serde = { version = "*", features = ["derive"] }
serde_derive = "*"
