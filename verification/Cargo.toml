[package]
name = "sutra"
version = "0.1.0"
edition = "2021"
publish = false

[dependencies]
clap = { version = "4", features = ["derive"] }
nix = { version = "0.29", features = ["signal"] }
rodio = "0.21"
tts = "0.26"
mac-notification-sys = "0.6"
