[package]
name = "ls_core"
version = "0.1.0"
edition = "2021"
publish = false

[dependencies]
chrono = "=0.4.45"
clap = { version = "=4.6.7", features = ["derive"] }
owo-colors = "=4.4.0"
tabled = "=0.22.0"
windows = { version = "=0.58.0", features = ["Win32_Storage_FileSystem", "Win32_Foundation"] }
