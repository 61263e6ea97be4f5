[package]
name = "seabird"
version = "0.1.0"
edition = "2021"
publish = false

[dependencies]
anyhow = "1"
http = "0.2"
prost = "0.12"
prost-types = "0.12"
tonic = { version = "0.11", features = ["tls", "tls-roots"] }
