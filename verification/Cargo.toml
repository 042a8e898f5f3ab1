[package]
name = "lbl-tg-rcore-tutorial-vga"
version = "0.1.0"
edition = "2021"
publish = false

[dependencies]
tg-sbi = "=0.4.2-preview.1"
