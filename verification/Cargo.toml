[package]
name = "tls_record"
version = "0.1.0"
edition = "2021"
publish = false

[dependencies]
hex = "0.4"
rustls = "0.20"
webpki-roots = "0.22"
