[package]
name = "railers"
version = "0.1.0"
edition = "2021"
publish = false

[dependencies]
global-hotkey = "0.5"
log = "0.4"
rdev = "0.5"
tracing = "0.1"
tracing-subscriber = { version = "0.3", features = ["env-filter"] }
windows = { version = "0.52", features = ["Win32_Foundation", "Win32_Graphics_Dwm", "Win32_UI_Input_KeyboardAndMouse", "Win32_UI_WindowsAndMessaging"] }
