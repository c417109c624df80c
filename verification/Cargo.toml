[package]
name = "dumpling"
version = "0.1.0"
edition = "2021"
publish = false

[dependencies]
clap = "2.33"
pulldown-cmark = { version = "0.7", default-features = false }
quick-xml = "0.13"
reqwest = { version = "0.9", default-features = false }
ritz = "*"
roblox_install = "*"
serde = { version = "1", features = ["derive"] }
serde_derive = "1"
serde_json = "1"
tempfile = "3"
toml = "0.5"
