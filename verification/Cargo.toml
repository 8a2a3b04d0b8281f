[package]
name = "tv_wol"
version = "0.1.0"
edition = "2021"
publish = false

[dependencies]
dbus = "0.6"
libc = "0.2"
