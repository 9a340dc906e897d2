[package]
name = "market_xml"
version = "0.1.0"
edition = "2021"
publish = false

[dependencies]
quick-xml = "=0.37.5"
flate2 = "=1.1.10"
byteorder = "=1.5.0"
