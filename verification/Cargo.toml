[package]
name = "parageom"
version = "0.1.0"
edition = "2021"
publish = false

[dependencies]
bytemuck = "=1.25.2"
fasteval = "=0.2.4"
libm = "*"
nalgebra = "=0.35.0"
num-traits = "*"
