[package]
name = "tauri-runtime-cef"
version = "0.1.0"
edition = "2021"
publish = false

[dependencies]
ash = "=0.38.0"
bytemuck = { version = "=1.25.2", features = ["derive"] }
cef = "=156.3.0"
libc = "=0.2.191"
pollster = "=1.0.1"
raw-window-handle = "=0.6.2"
softbuffer = { version = "=0.4.8", default-features = false, features = ["x11", "x11-dlopen", "wayland", "wayland-dlopen"] }
wgpu = { version = "=30.0.1", default-features = false, features = ["vulkan", "wgsl"] }
winit = { version = "=0.30.13", default-features = false, features = ["x11", "wayland", "wayland-dlopen", "rwh_06"] }
x11-dl = "=2.21.0"
