[package]
name = "img2irc"
version = "0.1.0"
edition = "2021"
publish = false

[dependencies]
clap = { version = "4", features = ["derive"] }
photon-rs = "0.3"
reqwest = "*"
tokio = { version = "1", features = ["macros", "rt-multi-thread"] }
url = "2"
