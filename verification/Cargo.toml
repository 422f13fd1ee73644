[package]
name = "amd_dx_gsa"
version = "0.1.0"
edition = "2021"
publish = false

[dependencies]
libloading = "0.7"
nom = "7"
