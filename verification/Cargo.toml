[package]
name = "uefi_hid"
version = "0.1.0"
edition = "2021"
publish = false

[dependencies]
hidparser = "=1.0.4"
r-efi = "=7.1.0"
