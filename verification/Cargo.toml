[package]
name = "mlx"
version = "0.1.0"
edition = "2021"
publish = false

[dependencies]
gethostname = "=1.1.0"
x11 = "=2.21.0"
