[package]
name = "tantex"
version = "0.1.0"
edition = "2021"
publish = false

[dependencies]
tantivy = "=0.22.1"
rustler = "=0.35.1"

[dev-dependencies]
tempfile = "=3.27.0"
