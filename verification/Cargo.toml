[package]
name = "tape_saturation"
version = "0.1.0"
edition = "2021"
publish = false

[dependencies]
libc = "=0.2.190"
rustc_apfloat = "*"
vst2 = "=0.0.1"
