[package]
name = "snapdog-os-installer"
version = "0.1.0"
edition = "2021"
publish = false

[dependencies]
aligned-vec = "0.6"
eframe = { version = "*", default-features = false, features = ["default_fonts", "glow", "x11"] }
egui_extras = { version = "*", default-features = false, features = ["image"] }
flate2 = "1"
hex = "0.4"
image = { version = "0.25", default-features = false, features = ["png"] }
objc2-core-foundation = "0.3"
objc2-disk-arbitration = "0.3"
objc2-io-kit = "0.3"
objc2-security = "0.3"
reqwest = { version = "0.12", default-features = false, features = ["blocking", "json", "rustls-tls"] }
same-file = "1"
semver = "1"
serde = { version = "1", features = ["derive"] }
serde_json = "1"
sha2 = "0.10"
tempfile = "3"
thiserror = "2"
tracing = "0.1"
tracing-subscriber = { version = "0.3", default-features = false, features = ["fmt"] }
unix-ancillary = "*"
windows-sys = { version = "*", features = ["Win32_Foundation", "Win32_Security", "Win32_Storage_FileSystem", "Win32_System_IO", "Win32_System_Ioctl", "Win32_System_SystemServices", "Win32_System_Threading", "Win32_System_WindowsProgramming", "Win32_UI_Shell", "Win32_UI_WindowsAndMessaging", "Win32_System_Registry"] }
zbus = { version = "5", default-features = false, features = ["blocking-api", "tokio"] }
