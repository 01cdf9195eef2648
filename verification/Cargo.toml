[package]
name = "usb_mass_storage"
version = "0.1.0"
edition = "2021"
publish = false

[dependencies]
embassy-sync = "*"
