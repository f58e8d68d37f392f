[package]
name = "ytdlp_extractor"
version = "0.1.0"
edition = "2021"
publish = false

[dependencies]
fancy-regex = "*"
regex = "*"
serde_json = "*"
url = "*"
quick-xml = "*"
