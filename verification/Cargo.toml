[package]
name = "power_mode_monitor"
version = "0.1.0"
edition = "2021"
publish = false

[dependencies]
image = "*"
dark-light = "*"
tray-icon = "*"
winit = "*"
