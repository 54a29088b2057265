[package]
name = "audio_anemometer"
version = "0.1.0"
edition = "2021"
publish = false

[dependencies]
rand = "0.8"
statrs = "0.16"
clap = { version = "4", features = ["derive"] }
