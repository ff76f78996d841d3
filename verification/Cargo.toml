[package]
name = "surface_loop"
version = "0.1.0"
edition = "2021"
publish = false

[dependencies]
jni-sys = "*"
libc = "*"
ndk = "*"
ndk-context = "*"
ndk-sys = "*"
raw-window-handle = "*"
