[package]
name = "wallpaper_ctl"
version = "0.1.0"
edition = "2021"
publish = false

[dependencies]
rand = "=0.8.8"
windows = { version = "0.52.0", features = ["Win32_Foundation", "Win32_System_Com", "Win32_UI_Shell"] }
