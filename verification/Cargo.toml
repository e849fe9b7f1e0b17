[package]
name = "winit_tray"
version = "0.1.0"
edition = "2021"
publish = false

[dependencies]
png = "0.17"
anyhow = "1"
tracing = "0.1"
dpi = "0.1"
raw-window-handle = "0.6"
winit = { version = "0.31.0-beta.1", default-features = false, features = ["x11"] }
winit-core = "0.31.0-beta.1"
zbus = "5"
windows-sys = { version = "0.59", features = ["Win32_Foundation", "Win32_Graphics_Gdi", "Win32_System_LibraryLoader", "Win32_System_SystemServices", "Win32_UI_WindowsAndMessaging"] }
objc2 = "0.6"
objc2-app-kit = "0.3"
objc2-core-foundation = "0.3"
objc2-foundation = "0.3"
