[package]
name = "xgpu"
version = "0.1.0"
edition = "2021"
publish = false

[dependencies]
log = "=0.4.34"
thiserror = "=1.0.69"
vulkan-sys = "=0.1.1"
windows = { version = "=0.52.0", features = ["Win32_Foundation", "Win32_Security", "Win32_Graphics_Dxgi", "Win32_Graphics_Dxgi_Common", "Win32_Graphics_Direct3D", "Win32_Graphics_Direct3D12", "Win32_UI_WindowsAndMessaging"] }
