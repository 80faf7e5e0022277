[package]
name = "onnx_embedding"
version = "0.1.0"
edition = "2021"
publish = false

[dependencies]
zip = { version = "*", default-features = false, features = ["deflate"] }
flate2 = "*"
tar = "*"
fslock = "*"
walkdir = "*"
tempfile = "*"
reqwest = { version = "*", default-features = false, features = ["blocking", "rustls-tls"] }
