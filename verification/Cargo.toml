[package]
name = "egui_backend_selector"
version = "0.1.0"
edition = "2021"
publish = false

[dependencies]
eframe = { version = "=0.34.3", default-features = false, features = ["glow", "default_fonts", "persistence"] }
egui = { version = "=0.34.3", default-features = false }
egui_software_backend = "=0.0.3"
glfw = "=0.63.0"
is_main_thread = "=0.1.0"
log = "=0.4.34"
raw-cpuid = "=11.6.0"
ron = "=0.12.2"
windows-sys = { version = "=0.61.2", features = ["Win32_UI_WindowsAndMessaging"] }
