[package]
name = "substrate_pallets"
version = "0.1.0"
edition = "2021"
publish = false

[dependencies]
parity-scale-codec = { version = "*", features = ["derive"] }
sp-io = "*"
sp-runtime = "*"
frame-support = "*"
frame-system = "*"
scale-info = { version = "*", features = ["derive"] }
log = "*"
