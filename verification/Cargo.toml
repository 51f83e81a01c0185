[package]
name = "mahm"
version = "0.1.0"
edition = "2021"
publish = false

[dependencies]
anyhow = "1"
bitflags = "2"
chrono = { version = "0.4", default-features = false, features = ["std"] }
log = "0.4"
pretty_env_logger = "*"
thiserror = "1"
windows = { version = "0.52", features = ["Win32_Foundation", "Win32_System_Memory"] }
winreg = "*"
