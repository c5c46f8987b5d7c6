[package]
name = "synth_core"
version = "0.1.0"
edition = "2021"
publish = false

[dependencies]
midi-msg = "*"
ringbuffer = "*"
anyhow = "*"
cpal = "*"
dasp_sample = "*"
fundsp = { version = "*", default-features = false, features = ["std"] }
midir = "*"
read_input = "*"
tracing = "*"
tracing-subscriber = { version = "*", default-features = false, features = ["fmt"] }
rustfft = "*"
egui = "*"
egui_plot = "*"
