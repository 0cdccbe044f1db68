[package]
name = "async-process"
version = "1.7.0"
edition = "2021"
publish = false

[dependencies]
async-io = "1.13"
async-lock = "2.8"
blocking = "1.3"
cfg-if = "1"
event-listener = "2.5"
futures-lite = "1.13"
rustix = { version = "0.38", default-features = false, features = ["std", "fs"] }
signal-hook = "0.3"
windows-sys = { version = "0.48", features = ["Win32_Foundation", "Win32_System_Threading", "Win32_System_WindowsProgramming"] }
