[package]
name = "ban_shadow"
version = "0.1.0"
edition = "2021"
publish = false

[dependencies]
anyhow = "=1.0.104"
clap = { version = "=4.6.7", features = ["derive"] }
pollster = "=1.0.1"
raw-window-handle = "=0.6.2"
wgpu = "=30.0.1"
windows = { version = "=0.62.2", features = ["Win32_Foundation", "Win32_Graphics_Direct3D", "Win32_Graphics_Direct3D11", "Win32_Graphics_Dxgi", "Win32_Graphics_Dxgi_Common", "Win32_UI_WindowsAndMessaging"] }
windows-capture = "=2.0.1"
winit = "=0.30.13"
