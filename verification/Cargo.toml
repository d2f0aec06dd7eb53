[package]
name = "zokrates_ir"
version = "0.1.0"
edition = "2021"
publish = false

[dependencies]
hex = "=0.4.3"
num-bigint = "=0.4.8"
