[package]
name = "rustplayer"
version = "0.1.0"
edition = "2021"
publish = false

[dependencies]
regex = "*"
clap = { version = "*", features = ["derive"] }
crossterm = "*"
ratatui = "*"
rodio = "*"
id3 = "*"
mp3-duration = "*"
rand = "*"
