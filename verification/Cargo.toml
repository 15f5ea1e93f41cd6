[package]
name = "you_dl"
version = "0.1.0"
edition = "2021"
publish = false

[dependencies]
qstring = "*"
serde_json = "*"
reqwest = { version = "*", default-features = false, features = ["stream"] }
smol = "*"
async-compat = "*"
futures-util = "*"
indicatif = "*"
dialoguer = "*"
clap = "*"
colored = "*"
