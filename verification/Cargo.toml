[package]
name = "blend"
version = "0.1.0"
edition = "2021"
publish = false

[dependencies]
drm-fourcc = "2"
smithay = { version = "0.7", default-features = false, features = ["renderer_gl", "wayland_frontend"] }
tracing = "0.1"
