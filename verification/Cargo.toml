[package]
name = "gdal"
version = "0.1.0"
edition = "2021"
publish = false

[dependencies]
gdal-sys = "*"
libc = "0.2"
foreign-types = "*"
ndarray = "*"
tempfile = "3"
