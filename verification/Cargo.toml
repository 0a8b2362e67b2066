[package]
name = "corrosion_input"
version = "0.1.0"
edition = "2021"
publish = false

[dependencies]
smithay = { version = "*", default-features = false, features = ["desktop", "wayland_frontend"] }
tracing = "0.1"
