[package]
name = "pallet_dex"
version = "0.1.0"
edition = "2021"
publish = false

[dependencies]
frame-support = "*"
frame-system = "*"
parity-scale-codec = { version = "*", features = ["derive", "max-encoded-len"] }
scale-info = { version = "*", features = ["derive"] }
sp-consensus-aura = "*"
sp-runtime = "*"
sp-std = "*"
