[package]
name = "wayland-clipboard-listener"
version = "0.3.0"
edition = "2021"
publish = false

[dependencies]
wayland-client = "0.31"
wayland-protocols-wlr = { version = "0.2", features = ["client"] }
os_pipe = "1"
thiserror = "1"
log = "0.4"
libc = "0.2"
nix = "0.26"
