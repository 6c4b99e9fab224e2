[package]
name = "rusty_visio_parser"
version = "0.1.0"
edition = "2021"
publish = false

[dependencies]
byteorder = "1"
encoding_rs = "0.8"
cfb = "*"
serde = { version = "1", features = ["derive"] }
serde_json = "1"
thiserror = "1"
xml-rs = "0.8"
zip = { version = "*", default-features = false, features = ["deflate"] }
