[package]
name = "cargo_careful"
version = "0.1.0"
edition = "2021"
publish = false

[dependencies]
serde_json = "*"
rustc-build-sysroot = "*"
anyhow = "*"
rustc_version = "*"
directories = "*"
tempdir = "*"
