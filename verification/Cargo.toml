[package]
name = "ec_service_lib"
version = "0.1.0"
edition = "2021"
publish = false

[dependencies]
uuid = { version = "1", default-features = false }
zerocopy = "0.8"
