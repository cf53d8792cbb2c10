[package]
name = "prismatic_viz"
version = "0.1.0"
edition = "2021"
publish = false

[dependencies]
indexmap = "=2.14.2"
const_soft_float = "=0.1.4"
libm = "*"
