[package]
name = "tray_pet"
version = "0.1.0"
edition = "2021"
publish = false

[dependencies]
sysinfo = { version = "=0.29.11", default-features = false }
windows-sys = { version = "=0.48.0", features = ["Win32_Foundation", "Win32_System_Registry"] }
