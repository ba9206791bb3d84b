[package]
name = "fontadapt"
version = "0.1.0"
edition = "2021"
publish = false

[dependencies]
skrifa = "=0.48.0"
read-fonts = "=0.45.0"

[dev-dependencies]
write-fonts = "=0.54.0"
