[package]
name = "heic-convert"
version = "0.1.0"
edition = "2021"
publish = false

[dependencies]
filetime = "=0.2.29"
serde = { version = "=1.0.229", features = ["derive"] }
winreg = "=0.55.0"
windows = { version = "=0.61.3", features = ["Win32_Foundation", "Win32_Graphics_Imaging", "Win32_System_Com", "Win32_System_Com_StructuredStorage", "Win32_System_Ole", "Win32_System_Variant", "Win32_UI_WindowsAndMessaging"] }
