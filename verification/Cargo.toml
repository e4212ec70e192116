[package]
name = "secret_box"
version = "0.1.0"
edition = "2021"
publish = false

[dependencies]
libc = "0.2"
errno = "*"
zeroize = "1"
windows-sys = { version = "*", features = ["Win32_Foundation", "Win32_System_Memory"] }
