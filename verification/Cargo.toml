[package]
name = "fuse_locations"
version = "0.1.0"
edition = "2021"
publish = false

[dependencies]
uuid = { version = "=1.29.0", features = ["v4", "v7"] }
bstr = "=1.13.1"
num-traits = "=0.2.19"
