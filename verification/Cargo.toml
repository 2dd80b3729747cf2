[package]
name = "voiceclip"
version = "0.1.0"
edition = "2021"
publish = false

[dependencies]
anyhow = "1"
arboard = { version = "3", default-features = false }
cpal = "0.15"
directories = "*"
evdev = "0.13"
global-hotkey = "*"
gtk4 = "*"
gtk4-layer-shell = "*"
hound = "3"
notify-rust = "4"
rusqlite = "*"
serde = { version = "1", features = ["derive"] }
tokio = { version = "1", features = ["rt-multi-thread", "macros", "sync", "time", "process", "fs", "io-util"] }
toml = "0.8"
