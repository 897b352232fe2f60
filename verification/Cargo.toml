[package]
name = "xdistances"
version = "0.1.0"
edition = "2021"
publish = false

[dependencies]
strsim = "=0.11.1"
eddie = "=0.1.0"
rayon = "=1.12.0"
