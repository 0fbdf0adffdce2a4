[package]
name = "tonic2axum"
version = "0.1.0"
edition = "2021"
publish = false

[dependencies]
heck = "*"
prost-build = "*"
prost-reflect = "*"
tonic-prost-build = "*"
