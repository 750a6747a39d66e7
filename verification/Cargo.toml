[package]
name = "ht32f1yyy_hal"
version = "0.1.0"
edition = "2021"
publish = false

[dependencies]
usb-device = "0.2"
embedded-hal = "1"
