[package]
name = "spontra"
version = "0.1.0"
edition = "2021"
publish = false

[dependencies]
frame-support = { version = "*", default-features = false }
frame-system = { version = "*", default-features = false }
pallet-transaction-payment = { version = "*", default-features = false }
sp-runtime = { version = "*", default-features = false }
parity-scale-codec = { version = "*", default-features = false, features = ["derive"] }
scale-info = { version = "*", default-features = false, features = ["derive"] }
