[package]
name = "wavesynth"
version = "0.1.0"
edition = "2021"
publish = false

[dependencies]
hound = "*"
rustfft = "*"
csv = "*"
fixed = "*"
cordic = "*"
