[package]
name = "wayggle_bg"
version = "0.1.0"
edition = "2021"
publish = false

[dependencies]
clap = { version = "=4.6.7", features = ["derive"] }
glow = "=0.18.0"
khronos-egl = { version = "=6.0.0", features = ["static"] }
tracing = "=0.1.44"
tracing-subscriber = { version = "=0.3.23", features = ["env-filter"] }
wayland-client = { version = "=0.31.15", features = ["dlopen"] }
wayland-egl = "=0.32.11"
wayland-protocols-wlr = { version = "=0.3.12", features = ["client"] }
