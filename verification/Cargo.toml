[package]
name = "mime_multipart"
version = "0.1.0"
edition = "2021"
publish = false

[dependencies]
tempdir = "0.3"
textnonce = "*"
encoding = "0.2"
