[package]
name = "geopattern"
version = "0.1.0"
edition = "2021"
publish = false

[dependencies]
base64 = "0.13"
sha1 = "0.6"
svg = "*"
