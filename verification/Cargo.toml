[package]
name = "music_browser"
version = "0.1.0"
edition = "2021"
publish = false

[dependencies]
glob = "0.3"
metadata = "*"
rodio = "0.17"
tui = "0.19"
