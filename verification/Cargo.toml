[package]
name = "termplay"
version = "0.1.0"
edition = "2021"
publish = false

[dependencies]
image = { version = "0.25", default-features = false, features = ["jpeg", "png"] }
ratatui = "0.29"
crossterm = "0.28"
dirs = "6"
id3 = "1"
reqwest = { version = "0.12", default-features = false, features = ["blocking"] }
rustypipe = { version = "0.11", default-features = false }
symphonia = { version = "0.5", default-features = false, features = ["mp3", "flac", "wav", "ogg", "vorbis"] }
tokio = { version = "1", features = ["rt-multi-thread", "sync", "time", "macros"] }
