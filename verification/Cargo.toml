[package]
name = "d3d11on12_proxy"
version = "0.1.0"
edition = "2021"
publish = false

[dependencies]
windows-core = "=0.58.0"
windows = { version = "=0.58.0", features = ["Win32_Foundation", "Win32_Graphics_Direct3D", "Win32_Graphics_Direct3D12", "Win32_Graphics_Dxgi", "Win32_Graphics_Dxgi_Common", "Win32_System_LibraryLoader", "Win32_System_SystemInformation", "Win32_System_SystemServices"] }
