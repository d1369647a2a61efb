[package]
name = "generic_lib"
version = "0.1.0"
edition = "2021"
publish = false

[dependencies]
frunk = "=0.5.0"
frunk_core = "=0.5.0"
frunk_utils = "=0.2.8"
frunk_utils_derives = "=0.1.4"
ndarray = "=0.17.2"
