[package]
name = "calculator"
version = "0.1.0"
edition = "2021"

[dependencies]
softfloat-wrapper = "*"
simple-soft-float = "*"
rustc_apfloat = "*"
