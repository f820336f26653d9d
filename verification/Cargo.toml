[package]
name = "edge_coord"
version = "0.1.0"
edition = "2021"
publish = false

[dependencies]
async-std = "1"
rppal = "*"
reqwest = { version = "*", default-features = false, features = ["blocking"] }
