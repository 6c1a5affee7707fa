[package]
name = "granular"
version = "0.1.0"
edition = "2021"
publish = false

[dependencies]
rosc = "=0.5.2"
crossbeam = "0.8"
cpal = "0.13"
hound = "3"
ring-channel = "*"
fastrand = "1"
anyhow = "1"
thiserror = "1"
strum_macros = "0.24"
