[package]
name = "ardop_arq"
version = "0.1.0"
edition = "2021"
publish = false

[dependencies]
bytes = "=0.4.12"
futures = "=0.3.34"
futures_codec = "=0.3.1"
num = "=0.2.1"
