[package]
name = "noisy_trackball"
version = "0.1.0"
edition = "2021"
publish = false

[dependencies]
rand = "*"
ctrlc = "*"
evdev = "*"
format_table = "*"
input = "*"
kira = "*"
libc = "*"
