[package]
name = "evhz"
version = "0.1.0"
edition = "2021"
publish = false

[dependencies]
core-foundation = "0.9"
core-graphics = "0.23"
ctrlc = "3.4"
evdev = "0.12"
lazy_static = "1.4"
libc = "0.2"
windows = { version = "0.52", features = ["Win32_UI_Input_KeyboardAndMouse", "Win32_Foundation", "Win32_UI_WindowsAndMessaging"] }
