[package]
name = "synth_bridge"
version = "0.1.0"
edition = "2021"
publish = false

[dependencies]
zmq = "=0.10.0"
egui = { version = "=0.27.2", default-features = false }
