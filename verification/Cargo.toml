[package]
name = "spectrogram"
version = "0.1.0"
edition = "2021"

[dependencies]
clap = { version = "4", features = ["derive"] }
colorgrad = "0.6"
hound = "3.5"
image = "0.24"
imageproc = "0.23"
rustfft = "6"
rusttype = "0.9"
symphonia = { version = "0.5", features = ["all"] }
