[package]
name = "opaque_handle"
version = "0.1.0"
edition = "2021"
publish = false

[dependencies]
copyless = "0.1"
fxhash = "0.2"
lazy_static = "1"
