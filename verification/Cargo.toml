[package]
name = "turtle"
version = "0.1.0"
edition = "2021"
publish = false

[dependencies]
moveslice = "*"
x11 = "*"
libc = "*"
ron = "*"
serde = { version = "*", features = ["derive"] }
