[package]
name = "scapp"
version = "0.1.0"
edition = "2021"
publish = false

[dependencies]
base64 = "=0.22.1"
image = { version = "=0.25.10", default-features = false, features = ["jpeg"] }
gstreamer = "=0.21.3"
gstreamer-rtp = "=0.21.2"
glib = "=0.18.5"
x11rb = { version = "=0.13.2", features = ["randr", "composite"] }
discord-rich-presence = "=1.1.0"
lazy_static = "=1.5.1"
serde = { version = "=1.0.229", features = ["derive"] }
serde_json = "=1.0.154"
reqwest = { version = "=0.12.28", default-features = false, features = ["multipart", "rustls-tls"] }
rayon = "1"
windows = { version = "0.58", features = ["Win32_Foundation", "Win32_UI_WindowsAndMessaging", "Win32_Storage_Xps", "Win32_System_Threading", "Win32_Graphics_Gdi", "Win32_Graphics_Dwm"] }
