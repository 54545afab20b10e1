[package]
name = "n64cop"
version = "0.1.0"
edition = "2021"
publish = false

[dependencies]
byteorder = "=1.5.0"
rustc_apfloat = "=0.2.3"
simple-soft-float = "*"
softfloat-wrapper = "*"
softfp = "*"
