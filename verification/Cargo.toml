[package]
name = "gui_demo"
version = "0.1.0"
edition = "2021"
publish = false

[dependencies]
rand = "0.6"
conrod = "0.61"
gfx-hal = "0.1"
gfx-backend-vulkan = "0.1"
winit = "0.18"
rusttype = "0.7"
