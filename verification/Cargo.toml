[package]
name = "xpath_reader"
version = "0.1.0"
edition = "2021"
publish = false

[dependencies]
sxd-document = "=0.3.2"
sxd-xpath = "=0.4.2"

[dev-dependencies]
sxd-document = "=0.3.2"
sxd-xpath = "=0.4.2"
