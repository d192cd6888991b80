[package]
name = "qr_app"
version = "0.1.0"
edition = "2021"
publish = false

[dependencies]
fast_qr = { version = "=0.14.0", features = ["image"] }
log = "=0.4.34"
rgb = "=0.8.53"
slint = { version = "=1.18.1", default-features = false, features = ["std", "compat-1-2"] }
