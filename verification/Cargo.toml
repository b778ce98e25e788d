[package]
name = "display_mover"
version = "0.1.0"
edition = "2021"
publish = false

[dependencies]
regex = "1"
windows = { version = "0.61", features = ["Win32_Foundation", "Win32_Graphics_Gdi", "Win32_Devices_Display", "Win32_UI_WindowsAndMessaging"] }
widestring = "1"
clap = { version = "4", features = ["derive"] }
anyhow = "1"
log = "0.4"
simple-log = "*"
