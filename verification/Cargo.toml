[package]
name = "vulkan_tutorial_rs"
version = "0.1.0"
edition = "2021"
publish = false

[dependencies]
num = "=0.4.3"
# vulkano 0.19.0 asks for vk-sys 0.5.2 or later of the 0.5 line and does not
# compile against 0.5.3, which renamed fields that it reads.  Nothing here
# names vk-sys; the line only holds vulkano's own dependency to 0.5.2.
vk-sys = "=0.5.2"
vulkano = "=0.19.0"
vulkano-win = "=0.19.0"
winit = "=0.22.2"
