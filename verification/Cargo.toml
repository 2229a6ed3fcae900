[package]
name = "imagelink"
version = "0.1.0"
edition = "2021"
publish = false

[dependencies]
kamadak-exif = "0.5"
clap = "2.34"
