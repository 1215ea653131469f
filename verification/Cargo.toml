[package]
name = "vene_clicker"
version = "0.1.0"
edition = "2021"
publish = false

[dependencies]
rand = "0.8"
parking_lot = "0.12"
rdev = "0.5"
egui = "0.29"
eframe = { version = "0.29", default-features = false, features = ["default_fonts", "glow", "x11"] }
windows-sys = { version = "0.59", features = ["Win32_Foundation", "Win32_System_SystemInformation", "Win32_System_Threading", "Win32_UI_Input_KeyboardAndMouse", "Win32_UI_WindowsAndMessaging", "Win32_UI_Accessibility"] }
