[package]
name = "approx_derive"
version = "0.1.0"
edition = "2021"
publish = false

[dependencies]
darling = "*"
proc-macro2 = "*"
quote = "*"
syn = "*"

[dev-dependencies]
approx = "*"
