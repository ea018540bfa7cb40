[package]
name = "osc_sender"
version = "0.1.0"
edition = "2021"
publish = false

[dependencies]
rosc = "=0.11.4"
eframe = { version = "*", default-features = false, features = ["glow", "x11", "default_fonts"] }
