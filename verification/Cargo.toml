[package]
name = "progetto"
version = "0.1.0"
edition = "2021"
publish = false

[dependencies]
goblin = "0.8"
capstone = "*"
sha2 = "0.10"
regex = "1"
image = { version = "0.25", default-features = false, features = ["png"] }
rand = "0.9"
tokio = { version = "1", features = ["rt-multi-thread", "macros", "fs", "io-util", "sync"] }
