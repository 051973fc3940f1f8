[package]
name = "cursor_anim"
version = "0.1.0"
edition = "2021"
publish = false

[dependencies]
anyhow = "1"
log = "0.4"
parking_lot = "0.12"
termwiz = "*"
wezterm-dynamic = "*"
