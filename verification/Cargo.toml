[package]
name = "grob"
version = "0.1.0"
edition = "2021"
publish = false

[dependencies]
windows = { version = "0.52", features = ["Win32_Foundation", "Win32_System_SystemServices", "Win32_NetworkManagement_NetManagement"] }
