[package]
name = "luna"
version = "0.1.0"
edition = "2021"
publish = false

[dependencies]
internment = "0.8.6"
rustc_span = "0.1.2"
rustc_data_structures = "0.1.2"
