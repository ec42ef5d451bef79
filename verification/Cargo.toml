[package]
name = "timetracker"
version = "0.1.0"
edition = "2021"
publish = false

[dependencies]
auto-launch = "*"
native-windows-derive = "*"
native-windows-gui = "*"
self_update = "*"
single-instance = "*"
winapi = { version = "*", features = ["winuser"] }
winreg = "*"
