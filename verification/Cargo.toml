[package]
name = "raw_output"
version = "0.1.0"
edition = "2021"
publish = false

[dependencies]
hurl_core = "=5.0.1"
libxml = "=0.3.3"
libflate = "=2.3.2"
brotli = "=9.0.0"
colored = "=2.2.0"
