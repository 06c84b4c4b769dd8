[package]
name = "radial_gravity"
version = "0.1.0"
edition = "2021"
publish = false

[dependencies]
bresenham = "*"
tiled = "*"
phf_codegen = "*"
quote = "*"
proc-macro2 = "*"

[dev-dependencies]
agb_fixnum = "*"
