[package]
name = "dxgi_capture"
version = "0.1.0"
edition = "2021"
publish = false

[dependencies]
winapi = { version = "0.3", features = ["d3d11", "d3dcommon", "dxgi", "dxgi1_2", "dxgitype", "minwindef", "ntdef", "unknwnbase", "windef", "winerror", "winnt"] }
