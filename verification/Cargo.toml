[package]
name = "im_disperser"
version = "0.1.0"
edition = "2021"
publish = false

[dependencies]
atomic_float = "=1.1.0"
privesc = "1.2.0"
rfd = { version = "=0.15.4", default-features = false }
vizia = { version = "=0.3.0", default-features = false, features = ["winit"] }
webbrowser = "=1.2.5"
windows = { version = "=0.58.0", features = ["Win32_Foundation", "Win32_UI_WindowsAndMessaging"] }
windows-elevate = "=0.1.0"
