[package]
name = "repocat"
version = "0.1.0"
edition = "2021"
publish = false

[dependencies]
anyhow = "1"
clap = { version = "4", features = ["derive"] }
git2 = "*"
glob = "0.3"
ignore = "0.4"
tempfile = "3"
