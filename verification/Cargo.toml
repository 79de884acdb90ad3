[package]
name = "input_manager"
version = "0.1.0"
edition = "2021"
publish = false

[dependencies]
libc = "=0.2.190"
wayland-sys = { version = "=0.31.11", default-features = false, features = ["server", "dlopen"] }
