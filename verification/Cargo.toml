[package]
name = "f64ad_core"
version = "0.1.0"
edition = "2021"
publish = false

[dependencies]
rand = "0.8"
tinyvec = { version = "1", features = ["alloc"] }
once_cell = "1"
num-traits = "0.2"
approx = "0.5"
simba = "0.7"
nalgebra = "0.31"
optimization_engine = "*"
