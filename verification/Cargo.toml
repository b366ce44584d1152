[package]
name = "burnout_detector"
version = "0.1.0"
edition = "2021"
publish = false

[dependencies]
chan = "0.1"
clap = { version = "4", features = ["derive"] }
hhmmss = "*"
notify-rust = "4"
rand = "0.8"
serde = { version = "1", features = ["derive"] }
serde_json = "1"
wayland-client = "0.31"
wayland-protocols-plasma = { version = "0.3", features = ["client"] }
