[package]
name = "mic_muter"
version = "0.1.0"
edition = "2021"
publish = false

[dependencies]
clap = { version = "*", features = ["derive"] }
hookmap = "*"
rodio = "*"
threadpool = "*"
tray-item = "*"
windows = { version = "*", features = ["Win32_Foundation", "Win32_Media_Audio", "Win32_System_Com", "Win32_UI_WindowsAndMessaging"] }
