[package]
name = "cc_downloader"
version = "0.1.0"
edition = "2021"
publish = false

[dependencies]
flate2 = "*"
url = "*"
reqwest = { version = "*", default-features = false }
tokio = { version = "*", features = ["rt-multi-thread", "macros", "sync", "time", "fs", "io-util"] }
clap = { version = "*", features = ["derive"] }
indicatif = "*"
