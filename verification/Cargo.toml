[package]
name = "audio_leveler"
version = "0.1.0"
edition = "2021"
publish = false

[dependencies]
ringbuf = "0.4"
ebur128 = "0.1"
cpal = "0.15"
plotters = "0.3"
clap = { version = "4", features = ["derive"] }
atomic_float = "1"
