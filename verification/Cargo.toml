[package]
name = "rofi_mode"
version = "0.1.0"
edition = "2021"
publish = false

[dependencies]
bitflags = "1"
cairo-rs = "*"
libc = "*"
pango = "*"
rofi-plugin-sys = "*"
