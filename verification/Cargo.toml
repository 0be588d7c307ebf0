[package]
name = "chromatic"
version = "0.1.0"
edition = "2021"
publish = false

[dependencies]
fuzzy-matcher = "0.3"
crossbeam-channel = "0.5"
pitch_calc = "*"
aubio = "*"
portaudio = "*"
pulsectl-rs = "*"
gtk4 = "0.5"
libadwaita = { version = "0.2", features = ["v1_2"] }
log = "0.4"
