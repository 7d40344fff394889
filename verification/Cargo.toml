[package]
name = "clipmap"
version = "0.1.0"
edition = "2021"
publish = false

[dependencies]
amethyst_assets = "=0.15.3"
amethyst_core = "=0.15.3"
amethyst_config = "=0.15.3"
amethyst_error = "=0.15.3"
genmesh = "=0.6.2"
glsl-layout = "=0.5.0"
palette = "=0.7.7"
winit = "=0.19.5"
gfx = "=0.18.3"
gfx_core = "=0.9.2"
rendy = { version = "=0.5.1", default-features = false, features = ["mesh"] }
serde = { version = "=1.0.229", features = ["derive"] }
