[package]
name = "opal_uefi_greeter"
version = "0.1.0"
edition = "2021"
publish = false

[dependencies]
bitflags = "*"
hmac = "0.12"
log = "0.4"
pbkdf2 = "0.12"
sha1 = "0.10"
uefi = { version = "*", features = ["alloc"] }
