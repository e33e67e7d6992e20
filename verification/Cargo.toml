[package]
name = "moldyn"
version = "0.1.0"
edition = "2021"
publish = false

[dependencies]
yaml-rust = "0.4.5"
nalgebra = "0.33"
rayon = "1.10"
periodic-table-on-an-enum = "*"
