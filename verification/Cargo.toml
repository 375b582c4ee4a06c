[package]
name = "crystal_symmetry"
version = "0.1.0"
edition = "2021"
publish = false

[dependencies]
nalgebra = { version = "*", default-features = false, features = ["std"] }
fraction = { version = "*", default-features = false }
itertools = "*"
winnow = "*"
