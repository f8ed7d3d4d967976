[package]
name = "iced_window_chrome"
version = "0.1.0"
edition = "2021"
publish = false

[dependencies]
iced = { version = "=0.14.0", default-features = false, features = ["x11", "tiny-skia", "thread-pool"] }
raw-window-handle = "=0.6.2"
x11rb = "=0.13.2"
windows-sys = { version = "=0.59.0", features = ["Wdk_System_SystemServices", "Win32_Foundation", "Win32_Graphics_Dwm", "Win32_System_SystemInformation", "Win32_UI_WindowsAndMessaging"] }
objc2 = "=0.6.5"
objc2-app-kit = "=0.3.2"
objc2-foundation = "=0.3.2"
objc2-core-foundation = "=0.3.2"
