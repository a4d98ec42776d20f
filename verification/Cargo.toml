[package]
name = "win_media_unbind"
version = "1.0.0"
edition = "2021"
publish = false

[dependencies]
winreg = "=0.56.0"
open = "=5.4.5"
native-windows-gui = "=1.0.13"
native-windows-derive = "=1.0.5"
eframe = { version = "0.27", default-features = false, features = ["default_fonts", "glow"] }
