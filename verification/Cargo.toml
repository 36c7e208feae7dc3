[package]
name = "camera_streamer"
version = "0.1.0"
edition = "2021"
publish = false

[dependencies]
image = "0.24"
tungstenite = "0.20"
rscam = "0.5"
clap = { version = "4", features = ["derive"] }
